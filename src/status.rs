//! Bookkeeping of the status sink: one counter per kind of event, and the
//! text of log entries.

use vstd::prelude::*;

use crate::update::UpdateState;

verus! {

/// The kind of an event reported to the status sink.
#[derive(Debug, Clone, Copy, PartialEq, Eq, Structural)]
pub enum Report {
    Unchanged,
    Skipped,
    Updated,
    New,
    Error,
}

/// Counters of the events reported so far.
#[derive(Debug, Clone, Copy, PartialEq, Eq, Structural)]
pub struct StatusCounts {
    pub unchanged: u64,
    pub skipped: u64,
    pub updated: u64,
    pub new: u64,
    pub err: u64,
}

impl StatusCounts {
    /// No counter can take another event without overflowing.
    pub open spec fn has_room(self, n: nat) -> bool {
        &&& self.unchanged + n <= u64::MAX
        &&& self.skipped + n <= u64::MAX
        &&& self.updated + n <= u64::MAX
        &&& self.new + n <= u64::MAX
        &&& self.err + n <= u64::MAX
    }

    /// The counters after one more event of kind `r`.
    pub open spec fn after(self, r: Report) -> StatusCounts {
        match r {
            Report::Unchanged => StatusCounts { unchanged: (self.unchanged + 1) as u64, ..self },
            Report::Skipped => StatusCounts { skipped: (self.skipped + 1) as u64, ..self },
            Report::Updated => StatusCounts { updated: (self.updated + 1) as u64, ..self },
            Report::New => StatusCounts { new: (self.new + 1) as u64, ..self },
            Report::Error => StatusCounts { err: (self.err + 1) as u64, ..self },
        }
    }

    /// The counters after the events `rs`, in order.
    pub open spec fn after_all(self, rs: Seq<Report>) -> StatusCounts
        decreases rs.len(),
    {
        if rs.len() == 0 {
            self
        } else {
            self.after(rs[0]).after_all(rs.drop_first())
        }
    }

    /// All events counted.
    pub open spec fn total(self) -> int {
        self.unchanged + self.skipped + self.updated + self.new + self.err
    }

    /// All counters at zero.
    pub fn new() -> (r: StatusCounts)
        ensures
            r.total() == 0,
            r == (StatusCounts { unchanged: 0, skipped: 0, updated: 0, new: 0, err: 0 }),
    {
        StatusCounts { unchanged: 0, skipped: 0, updated: 0, new: 0, err: 0 }
    }

    /// Whether every counter can take one more event.
    pub fn has_room_for_one(&self) -> (r: bool)
        ensures
            r == self.has_room(1),
    {
        self.unchanged < u64::MAX && self.skipped < u64::MAX && self.updated < u64::MAX
            && self.new < u64::MAX && self.err < u64::MAX
    }

    /// Counts one event of kind `r`.
    pub fn register(&mut self, r: Report)
        requires
            old(self).has_room(1),
        ensures
            *final(self) == old(self).after(r),
    {
        match r {
            Report::Unchanged => self.unchanged = self.unchanged + 1,
            Report::Skipped => self.skipped = self.skipped + 1,
            Report::Updated => self.updated = self.updated + 1,
            Report::New => self.new = self.new + 1,
            Report::Error => self.err = self.err + 1,
        }
    }

    pub fn register_unchanged(&mut self)
        requires
            old(self).has_room(1),
        ensures
            *final(self) == old(self).after(Report::Unchanged),
    {
        self.register(Report::Unchanged)
    }

    pub fn register_skipped(&mut self)
        requires
            old(self).has_room(1),
        ensures
            *final(self) == old(self).after(Report::Skipped),
    {
        self.register(Report::Skipped)
    }

    pub fn register_updated(&mut self)
        requires
            old(self).has_room(1),
        ensures
            *final(self) == old(self).after(Report::Updated),
    {
        self.register(Report::Updated)
    }

    pub fn register_new(&mut self)
        requires
            old(self).has_room(1),
        ensures
            *final(self) == old(self).after(Report::New),
    {
        self.register(Report::New)
    }

    pub fn register_err(&mut self)
        requires
            old(self).has_room(1),
        ensures
            *final(self) == old(self).after(Report::Error),
    {
        self.register(Report::Error)
    }
}

/// The event a reconciliation outcome is reported as, once carried out.
pub open spec fn report_of(state: UpdateState) -> Report {
    match state {
        UpdateState::Missing => Report::New,
        UpdateState::OutOfDate => Report::Updated,
        UpdateState::UpToDate => Report::Unchanged,
    }
}

/// The event for a reconciliation outcome whose steps all succeeded.
pub fn report_for(state: UpdateState) -> (r: Report)
    ensures
        r == report_of(state),
{
    match state {
        UpdateState::Missing => Report::New,
        UpdateState::OutOfDate => Report::Updated,
        UpdateState::UpToDate => Report::Unchanged,
    }
}

/// What a queued video job ends in.
#[derive(Debug, Clone, Copy, PartialEq, Eq, Structural)]
pub enum VideoJobOutcome {
    /// The existence check could not be made.
    CheckFailed,
    /// The video is in its folder already.
    Present,
    /// The video is missing and no downloader is configured.
    NoDownloader,
    /// The downloader ran and succeeded.
    Downloaded,
    /// The downloader ran and failed.
    DownloadFailed,
}

/// The event reported for a video job: every job is reported exactly once.
pub open spec fn video_report(o: VideoJobOutcome) -> Report {
    match o {
        VideoJobOutcome::CheckFailed => Report::Error,
        VideoJobOutcome::Present => Report::Unchanged,
        VideoJobOutcome::NoDownloader => Report::Skipped,
        VideoJobOutcome::Downloaded => Report::New,
        VideoJobOutcome::DownloadFailed => Report::Error,
    }
}

/// The event to report for a finished video job.
pub fn video_job_report(o: VideoJobOutcome) -> (r: Report)
    ensures
        r == video_report(o),
{
    match o {
        VideoJobOutcome::CheckFailed => Report::Error,
        VideoJobOutcome::Present => Report::Unchanged,
        VideoJobOutcome::NoDownloader => Report::Skipped,
        VideoJobOutcome::Downloaded => Report::New,
        VideoJobOutcome::DownloadFailed => Report::Error,
    }
}

/// The outcomes `os` of a drained queue, as reported events.
pub open spec fn video_reports(os: Seq<VideoJobOutcome>) -> Seq<Report> {
    os.map_values(|o: VideoJobOutcome| video_report(o))
}

/// Counting events one by one adds exactly one to the total per event;
/// where every event is new or an error, those two counters take them all.
pub proof fn lemma_counts_total(c: StatusCounts, rs: Seq<Report>)
    requires
        c.has_room(rs.len()),
    ensures
        c.after_all(rs).total() == c.total() + rs.len(),
        (forall|i: int|
            0 <= i < rs.len() ==> #[trigger] rs[i] == Report::New || rs[i] == Report::Error) ==> c.after_all(
            rs,
        ).new + c.after_all(rs).err == c.new + c.err + rs.len(),
    decreases rs.len(),
{
    if rs.len() > 0 {
        let rest = rs.drop_first();
        let c1 = c.after(rs[0]);
        lemma_counts_total(c1, rest);
        if forall|i: int|
            0 <= i < rs.len() ==> #[trigger] rs[i] == Report::New || rs[i] == Report::Error {
            assert forall|i: int| 0 <= i < rest.len() implies #[trigger] rest[i] == Report::New
                || rest[i] == Report::Error by {
                assert(rest[i] == rs[i + 1]);
            }
            assert(rs[0] == Report::New || rs[0] == Report::Error);
        }
    }
}

/// When every one of `n` queued video jobs reaches the downloader, draining
/// the queue reports exactly `n` events, each of them new or an error: none
/// is dropped and none counted twice.
pub proof fn lemma_drained_queue_reports_every_job(c: StatusCounts, os: Seq<VideoJobOutcome>)
    requires
        c.has_room(os.len()),
        forall|i: int|
            0 <= i < os.len() ==> #[trigger] os[i] == VideoJobOutcome::Downloaded || os[i]
                == VideoJobOutcome::DownloadFailed,
    ensures
        c.after_all(video_reports(os)).total() == c.total() + os.len(),
        c.after_all(video_reports(os)).new + c.after_all(video_reports(os)).err == c.new + c.err
            + os.len(),
{
    let rs = video_reports(os);
    assert forall|i: int| 0 <= i < rs.len() implies #[trigger] rs[i] == Report::New || rs[i]
        == Report::Error by {
        assert(rs[i] == video_report(os[i]));
    }
    lemma_counts_total(c, rs);
}

} // verus!
