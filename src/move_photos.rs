//! The organizer: decides, asset by asset, into which `YYYY-MM` bucket each
//! one goes, skips those dated before an optional cutoff, and keeps the
//! progress stream and the count of relocated assets.
use crate::date::{format_date, year_month_format, year_month_text, Date, DateTime};
use crate::file::File;
use crate::gather_photos::{gathered, is_asset, lemma_no_assets_gathered, Entry};
use crate::get_created_at::{get_created_at, resolved, GetCreatedAtError};
use crate::progress::{stream, Progress, Tracker};
use vstd::prelude::*;

verus! {

/// Why a run stopped.
#[derive(Clone, Debug, PartialEq, Eq)]
pub enum MovePhotosError {
    GetCreatedAtFailed(GetCreatedAtError),
    FailedToCreateTarget,
    FailedToCreatePhotoTarget { path: String },
    CouldNotMovePhoto,
}

/// What becomes of one asset.
#[derive(Clone, Debug, PartialEq, Eq)]
pub enum Relocation {
    /// Dated before the cutoff: left where it is.
    Skip,
    /// Moved into the bucket of this name under the target, unless a file of
    /// the same name is already there.
    Into(String),
}

/// Dated strictly before the cutoff day, if there is a cutoff.
pub open spec fn before_cutoff(d: DateTime, cutoff: Option<Date>) -> bool {
    cutoff is Some && d.date.spec_before(cutoff->Some_0)
}

/// What may become of an asset whose date resolution gave `date`.
pub open spec fn relocation_allows(
    date: Result<DateTime, GetCreatedAtError>,
    cutoff: Option<Date>,
    r: Result<Relocation, MovePhotosError>,
) -> bool {
    match date {
        Err(e) => r == Err::<Relocation, MovePhotosError>(MovePhotosError::GetCreatedAtFailed(e)),
        Ok(d) => if before_cutoff(d, cutoff) {
            r == Ok::<Relocation, MovePhotosError>(Relocation::Skip)
        } else {
            &&& r is Ok
            &&& r->Ok_0 is Into
            &&& 0 <= d.date.year <= 9999 ==> r->Ok_0->Into_0@ == year_month_text(d.date)
        },
    }
}

/// The bucket of a date: `YYYY-MM`.
pub fn bucket_name(d: &DateTime) -> (r: String)
    requires
        d.wf(),
    ensures
        0 <= d.date.year <= 9999 ==> r@ == year_month_text(d.date),
{
    proof {
        reveal_strlit("%Y-%m");
        assert("%Y-%m"@ =~= year_month_format());
    }
    format_date(&d.date, "%Y-%m")
}

/// What becomes of an asset whose date resolution gave `date`.
pub fn relocation_for(date: Result<DateTime, GetCreatedAtError>, cutoff: &Option<Date>) -> (r:
    Result<Relocation, MovePhotosError>)
    requires
        date is Ok ==> date->Ok_0.wf(),
    ensures
        relocation_allows(date, *cutoff, r),
{
    match date {
        Err(e) => Err(MovePhotosError::GetCreatedAtFailed(e)),
        Ok(d) => {
            let skip = match cutoff {
                Some(c) => d.date.is_before(c),
                None => false,
            };
            if skip {
                Ok(Relocation::Skip)
            } else {
                Ok(Relocation::Into(bucket_name(&d)))
            }
        },
    }
}

/// Decides what becomes of `file`: its date is resolved from `contents` (a
/// photo's bytes) and `created` (its creation time in whole seconds, or the
/// error met reading it), then held against the cutoff.
pub fn plan_relocation(
    file: &File,
    contents: &[u8],
    created: Result<u64, GetCreatedAtError>,
    cutoff: &Option<Date>,
) -> (r: Result<Relocation, MovePhotosError>)
    ensures
        relocation_allows(resolved(*file, contents@, created), *cutoff, r),
{
    let date = get_created_at(file, contents, created);
    relocation_for(date, cutoff)
}

/// A run that organizes a list of assets, one after the other.
pub struct Organizer {
    cutoff: Option<Date>,
    tracker: Tracker,
    moved: usize,
}

impl Organizer {
    pub closed spec fn spec_cutoff(&self) -> Option<Date> {
        self.cutoff
    }

    /// The progress side of the run.
    pub closed spec fn spec_tracker(&self) -> Tracker {
        self.tracker
    }

    /// How many assets were relocated.
    pub closed spec fn spec_moved(&self) -> nat {
        self.moved as nat
    }

    pub closed spec fn wf(&self) -> bool {
        &&& self.tracker.wf()
        &&& self.moved <= self.tracker.spec_attempted()
    }

    /// Starts a run over `count` assets; the message announces the total.
    pub fn new(count: usize, cutoff: Option<Date>) -> (r: (Organizer, Progress))
        ensures
            r.0.wf(),
            r.0.spec_cutoff() == cutoff,
            r.0.spec_moved() == 0,
            r.0.spec_tracker().spec_total() == count,
            r.0.spec_tracker().spec_attempted() == 0,
            !r.0.spec_tracker().spec_finished(),
            r.0.spec_tracker().spec_sent() == seq![r.1],
            r.1 == Progress::Total(count),
    {
        let (tracker, p) = Tracker::new(count);
        (Organizer { cutoff, tracker, moved: 0 }, p)
    }

    /// Decides what becomes of `file`; see `plan_relocation`.
    pub fn plan(
        &self,
        file: &File,
        contents: &[u8],
        created: Result<u64, GetCreatedAtError>,
    ) -> (r: Result<Relocation, MovePhotosError>)
        ensures
            relocation_allows(resolved(*file, contents@, created), self.spec_cutoff(), r),
    {
        plan_relocation(file, contents, created, &self.cutoff)
    }

    /// The cutoff of the run.
    pub fn cutoff(&self) -> (r: Option<Date>)
        ensures
            r == self.spec_cutoff(),
    {
        self.cutoff
    }

    /// Records that the next asset was attempted, and whether it was
    /// relocated; gives the `Inc` to send, or `None` (changing nothing) once
    /// every asset was attempted. The total never changes.
    pub fn record(&mut self, relocated: bool) -> (r: Option<Progress>)
        requires
            old(self).wf(),
        ensures
            final(self).wf(),
            final(self).spec_cutoff() == old(self).spec_cutoff(),
            final(self).spec_tracker().spec_total() == old(self).spec_tracker().spec_total(),
            final(self).spec_tracker().spec_finished() == old(self).spec_tracker().spec_finished(),
            old(self).spec_tracker().spec_attempted() < old(self).spec_tracker().spec_total() ==> {
                &&& r == Some(Progress::Inc(old(self).spec_tracker().spec_attempted() as u64))
                &&& final(self).spec_tracker().spec_attempted() == old(
                    self,
                ).spec_tracker().spec_attempted() + 1
                &&& final(self).spec_tracker().spec_sent() == old(
                    self,
                ).spec_tracker().spec_sent().push(r->Some_0)
                &&& final(self).spec_moved() == old(self).spec_moved() + if relocated {
                    1nat
                } else {
                    0nat
                }
            },
            old(self).spec_tracker().spec_attempted() == old(self).spec_tracker().spec_total()
                ==> r is None && *final(self) == *old(self),
    {
        proof {
            self.tracker.lemma_bounds();
        }
        let r = self.tracker.unit();
        proof {
            self.tracker.lemma_bounds();
        }
        if r.is_some() && relocated {
            self.moved = self.moved + 1;
        }
        r
    }

    /// Ends the run once every asset was attempted, and gives the `Done` to
    /// send; `None` (changing nothing) before that, or once it ended.
    pub fn finish(&mut self) -> (r: Option<Progress>)
        requires
            old(self).wf(),
        ensures
            final(self).wf(),
            final(self).spec_cutoff() == old(self).spec_cutoff(),
            final(self).spec_moved() == old(self).spec_moved(),
            final(self).spec_tracker().spec_total() == old(self).spec_tracker().spec_total(),
            final(self).spec_tracker().spec_attempted() == old(self).spec_tracker().spec_attempted(),
            old(self).spec_tracker().spec_attempted() == old(self).spec_tracker().spec_total()
                && !old(self).spec_tracker().spec_finished() ==> {
                &&& r == Some(Progress::Done)
                &&& final(self).spec_tracker().spec_finished()
                &&& final(self).spec_tracker().spec_sent() == old(
                    self,
                ).spec_tracker().spec_sent().push(Progress::Done)
            },
            !(old(self).spec_tracker().spec_attempted() == old(self).spec_tracker().spec_total()
                && !old(self).spec_tracker().spec_finished()) ==> r is None && *final(self) == *old(
                self,
            ),
    {
        self.tracker.finish()
    }

    /// How many assets were relocated.
    pub fn moved(&self) -> (r: usize)
        ensures
            r == self.spec_moved(),
    {
        self.moved
    }

    /// How many assets the run is over.
    pub fn total(&self) -> (r: usize)
        requires
            self.wf(),
        ensures
            r == self.spec_tracker().spec_total(),
    {
        self.tracker.total()
    }

    /// How many assets were attempted so far.
    pub fn attempted(&self) -> (r: usize)
        requires
            self.wf(),
        ensures
            r == self.spec_tracker().spec_attempted(),
    {
        self.tracker.attempted()
    }
}

/// An asset dated strictly before the cutoff day is not relocated.
pub proof fn lemma_cutoff_excludes(
    d: DateTime,
    cutoff: Date,
    r: Result<Relocation, MovePhotosError>,
)
    requires
        d.date.spec_before(cutoff),
        relocation_allows(Ok(d), Some(cutoff), r),
    ensures
        r == Ok::<Relocation, MovePhotosError>(Relocation::Skip),
{
}

/// A second run over a source that the first one emptied of assets finds
/// nothing, announces a total of 0, and can end at once: its whole stream is
/// the total and `Done`, with nothing relocated and no error.
pub proof fn lemma_rerun_on_emptied_source(entries: Seq<Entry>)
    requires
        forall|i: int| 0 <= i < entries.len() ==> !is_asset(#[trigger] entries[i]),
    ensures
        gathered(entries).len() == 0,
        stream(0, 0, true) == seq![Progress::Total(0), Progress::Done],
{
    lemma_no_assets_gathered(entries);
    assert(stream(0, 0, true) =~= seq![Progress::Total(0), Progress::Done]);
}

} // verus!
