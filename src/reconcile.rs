//! Reconciliation of one artifact: the outcome, and the ordered filesystem
//! steps that carry it out (archive rename, write to a temporary sibling,
//! timestamp, atomic rename). A model of the disk states what the steps do,
//! and the laws below are proved over it.

use vstd::prelude::*;

use crate::artifact::{archive_date, ArtifactPath, ArtifactView, MAX_ARCHIVE_SECS};
use crate::update::{
    archive_required, content_state, exists_state, policy_state, timestamp_state, view_text, DiskEntry,
    UpdateState, UpdateStrategy,
};

verus! {

/// One filesystem operation; a plan runs them in order and stops at the
/// first failure.
#[derive(Debug, Clone)]
pub enum FsStep {
    /// Create the directory and its parents; nothing happens if it exists.
    CreateDirAll { dir: String },
    /// Write the fetched artifact, in full, to `path`.
    WriteContent { path: String },
    /// Set the modification and access time of `path` to `secs`.
    SetTimes { path: String, secs: u64 },
    /// Rename `from` onto `to` in one filesystem operation.
    Rename { from: String, to: String },
}

/// The mathematical model of an `FsStep`.
pub ghost enum StepView {
    CreateDirAll { dir: Seq<char> },
    WriteContent { path: Seq<char> },
    SetTimes { path: Seq<char>, secs: u64 },
    Rename { from: Seq<char>, to: Seq<char> },
}

impl View for FsStep {
    type V = StepView;

    open spec fn view(&self) -> StepView {
        match self {
            FsStep::CreateDirAll { dir } => StepView::CreateDirAll { dir: dir@ },
            FsStep::WriteContent { path } => StepView::WriteContent { path: path@ },
            FsStep::SetTimes { path, secs } => StepView::SetTimes { path: path@, secs: *secs },
            FsStep::Rename { from, to } => StepView::Rename { from: from@, to: to@ },
        }
    }
}

/// The models of a list of steps.
pub open spec fn steps_view(steps: Seq<FsStep>) -> Seq<StepView> {
    steps.map_values(|s: FsStep| s@)
}

/// Steps of an atomic fetch: make the directory, write the temporary
/// sibling, stamp it with the server's time if there is one, and rename it
/// onto the final path.
pub open spec fn fetch_plan(a: ArtifactView, timestamp: Option<u64>) -> Seq<StepView> {
    let head = seq![
        StepView::CreateDirAll { dir: a.dir },
        StepView::WriteContent { path: a.tmp_path() },
    ];
    let stamp = match timestamp {
        Option::None => Seq::<StepView>::empty(),
        Option::Some(t) => seq![StepView::SetTimes { path: a.tmp_path(), secs: t }],
    };
    head + stamp + seq![StepView::Rename { from: a.tmp_path(), to: a.final_path() }]
}

/// Steps for a reconciliation outcome: nothing when current; the fetch when
/// missing or stale; under `Archive`, a stale file is first renamed to its
/// dated name.
pub open spec fn reconcile_plan(
    policy: UpdateStrategy,
    a: ArtifactView,
    state: UpdateState,
    timestamp: Option<u64>,
    date: Seq<char>,
) -> Seq<StepView> {
    match state {
        UpdateState::UpToDate => Seq::empty(),
        UpdateState::Missing => fetch_plan(a, timestamp),
        UpdateState::OutOfDate => if archive_required(policy, state) {
            seq![StepView::Rename { from: a.final_path(), to: a.archived_path(date) }] + fetch_plan(
                a,
                timestamp,
            )
        } else {
            fetch_plan(a, timestamp)
        },
    }
}

/// The file's modification time lies past what an archive suffix can show.
pub open spec fn date_out_of_range(entry: DiskEntry) -> bool {
    match entry {
        DiskEntry::Present { modified } => modified > MAX_ARCHIVE_SECS,
        DiskEntry::Absent => false,
    }
}

/// An outcome and the steps that carry it out.
#[derive(Debug)]
pub struct Reconciliation {
    pub state: UpdateState,
    pub steps: Vec<FsStep>,
}

/// Why a reconciliation could not be planned.
#[derive(Debug, Clone, Copy, PartialEq, Eq, Structural)]
pub enum ReconcileError {
    /// The file to archive carries a modification time that no date suffix
    /// can be formatted for.
    ArchiveDateOutOfRange,
}

/// The steps of an atomic fetch of `a` (see `fetch_plan`).
pub fn fetch_steps(a: &ArtifactPath, timestamp: Option<u64>) -> (r: Vec<FsStep>)
    ensures
        steps_view(r@) == fetch_plan(a@, timestamp),
{
    let tmp = a.tmp_path();
    let mut steps: Vec<FsStep> = Vec::new();
    steps.push(FsStep::CreateDirAll { dir: a.dir.clone() });
    steps.push(FsStep::WriteContent { path: tmp.clone() });
    match timestamp {
        Option::None => {},
        Option::Some(t) => {
            steps.push(FsStep::SetTimes { path: tmp.clone(), secs: t });
        },
    }
    steps.push(FsStep::Rename { from: tmp, to: a.final_path() });
    assert(steps_view(steps@) =~= fetch_plan(a@, timestamp));
    steps
}

/// The steps for `state` under `policy`, archiving with `date` where the
/// policy asks for it (see `reconcile_plan`).
pub fn plan_steps(
    policy: UpdateStrategy,
    a: &ArtifactPath,
    state: UpdateState,
    timestamp: Option<u64>,
    date: &str,
) -> (r: Vec<FsStep>)
    ensures
        steps_view(r@) == reconcile_plan(policy, a@, state, timestamp, date@),
{
    match state {
        UpdateState::UpToDate => {
            let r: Vec<FsStep> = Vec::new();
            assert(steps_view(r@) =~= Seq::<StepView>::empty());
            r
        },
        UpdateState::Missing => fetch_steps(a, timestamp),
        UpdateState::OutOfDate => {
            let mut fetch = fetch_steps(a, timestamp);
            if policy.needs_archive(state) {
                let mut r: Vec<FsStep> = Vec::new();
                r.push(FsStep::Rename { from: a.final_path(), to: a.archived_path(date) });
                let ghost f = fetch@;
                r.append(&mut fetch);
                assert(steps_view(r@) =~= seq![
                    StepView::Rename { from: a@.final_path(), to: a@.archived_path(date@) },
                ] + steps_view(f));
                r
            } else {
                fetch
            }
        },
    }
}

/// Reconciles `a` against a server timestamp. `entry` is what lies at the
/// final path. The outcome follows the policy table; where a stale file is
/// archived, it is renamed to a dated name formatted from its own
/// modification time in the local time zone.
pub fn reconcile_timestamp(
    policy: UpdateStrategy,
    a: &ArtifactPath,
    entry: &DiskEntry,
    timestamp: u64,
) -> (r: Result<Reconciliation, ReconcileError>)
    ensures
        ({
            let state = policy_state(policy, timestamp_state(*entry, timestamp));
            match r {
                Ok(rec) => {
                    &&& rec.state == state
                    &&& exists|d: Seq<char>|
                        d.len() > 0 && steps_view(rec.steps@) == reconcile_plan(
                            policy,
                            a@,
                            state,
                            Option::Some(timestamp),
                            d,
                        )
                },
                Err(e) => {
                    &&& e == ReconcileError::ArchiveDateOutOfRange
                    &&& archive_required(policy, state)
                },
            }
        }),
        r is Err <==> (archive_required(
            policy,
            policy_state(policy, timestamp_state(*entry, timestamp)),
        ) && date_out_of_range(*entry)),
{
    let state = policy.timestamp_check_up_to_date(entry, timestamp);
    reconcile_existing(policy, a, entry, state, Option::Some(timestamp))
}

/// Reconciles `a` against newly fetched text. `existing` is the text at the
/// final path, if there is a file, and `modified` that file's modification
/// time, which names the archived version.
pub fn reconcile_contents(
    policy: UpdateStrategy,
    a: &ArtifactPath,
    existing: &Option<String>,
    modified: u64,
    new_content: &str,
) -> (r: Result<Reconciliation, ReconcileError>)
    ensures
        ({
            let state = policy_state(policy, content_state(view_text(existing), new_content@));
            match r {
                Ok(rec) => {
                    &&& rec.state == state
                    &&& exists|d: Seq<char>|
                        d.len() > 0 && steps_view(rec.steps@) == reconcile_plan(
                            policy,
                            a@,
                            state,
                            Option::None,
                            d,
                        )
                },
                Err(e) => {
                    &&& e == ReconcileError::ArchiveDateOutOfRange
                    &&& archive_required(policy, state)
                },
            }
        }),
        r is Err <==> (archive_required(
            policy,
            policy_state(policy, content_state(view_text(existing), new_content@)),
        ) && modified > MAX_ARCHIVE_SECS),
{
    let state = policy.file_check_up_to_date(existing, new_content);
    let entry = match existing {
        Option::Some(_) => DiskEntry::Present { modified },
        Option::None => DiskEntry::Absent,
    };
    reconcile_existing(policy, a, &entry, state, Option::None)
}

fn reconcile_existing(
    policy: UpdateStrategy,
    a: &ArtifactPath,
    entry: &DiskEntry,
    state: UpdateState,
    timestamp: Option<u64>,
) -> (r: Result<Reconciliation, ReconcileError>)
    requires
        state != UpdateState::Missing ==> entry is Present,
    ensures
        match r {
            Ok(rec) => {
                &&& rec.state == state
                &&& exists|d: Seq<char>|
                    d.len() > 0 && steps_view(rec.steps@) == reconcile_plan(
                        policy,
                        a@,
                        state,
                        timestamp,
                        d,
                    )
            },
            Err(e) => {
                &&& e == ReconcileError::ArchiveDateOutOfRange
                &&& archive_required(policy, state)
            },
        },
        r is Err <==> (archive_required(policy, state) && date_out_of_range(*entry)),
{
    proof {
        reveal_strlit("-");
    }
    if policy.needs_archive(state) {
        let modified = match entry {
            DiskEntry::Present { modified } => *modified,
            DiskEntry::Absent => 0,
        };
        match archive_date(modified) {
            Option::None => Err(ReconcileError::ArchiveDateOutOfRange),
            Option::Some(date) => {
                let steps = plan_steps(policy, a, state, timestamp, date.as_str());
                assert(date@.len() > 0);
                Ok(Reconciliation { state, steps })
            },
        }
    } else {
        let steps = plan_steps(policy, a, state, timestamp, "-");
        assert("-"@.len() > 0);
        Ok(Reconciliation { state, steps })
    }
}

/// The existence-only fast path, for artifacts without freshness data: a
/// present file is current, a missing one is fetched. This path never
/// reports `OutOfDate`.
pub fn reconcile_exists(a: &ArtifactPath, entry: &DiskEntry) -> (r: Reconciliation)
    ensures
        r.state == exists_state(*entry),
        r.state != UpdateState::OutOfDate,
        steps_view(r.steps@) == (if r.state == UpdateState::Missing {
            fetch_plan(a@, Option::None)
        } else {
            Seq::<StepView>::empty()
        }),
{
    let state = UpdateStrategy::check_exists(entry);
    match state {
        UpdateState::Missing => Reconciliation { state, steps: fetch_steps(a, Option::None) },
        _ => {
            let steps: Vec<FsStep> = Vec::new();
            assert(steps_view(steps@) =~= Seq::<StepView>::empty());
            Reconciliation { state, steps }
        },
    }
}

/// The step that archives the file at `a`'s final path, last modified at
/// `modified`: a rename to the name dated with that time in the local time
/// zone. An error where the time lies past what a date suffix can show.
pub fn archive_file(a: &ArtifactPath, modified: u64) -> (r: Result<FsStep, ReconcileError>)
    ensures
        r is Err <==> modified > MAX_ARCHIVE_SECS,
        r matches Ok(step) ==> exists|d: Seq<char>|
            d.len() > 0 && step@ == (StepView::Rename {
                from: a@.final_path(),
                to: a@.archived_path(d),
            }),
{
    match archive_date(modified) {
        Option::None => Err(ReconcileError::ArchiveDateOutOfRange),
        Option::Some(date) => {
            let step = FsStep::Rename { from: a.final_path(), to: a.archived_path(date.as_str()) };
            assert(date@.len() > 0);
            Ok(step)
        },
    }
}

} // verus!
