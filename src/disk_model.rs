//! A model of the disk as a map from paths to files, what each planned step
//! does to it, and the guarantees of reconciliation proved over it.

use vstd::prelude::*;

use crate::artifact::{lemma_paths_distinct, ArtifactView, TMP_EXTENSION};
use crate::reconcile::{fetch_plan, reconcile_plan, StepView};
use crate::update::{
    archive_required, content_state, policy_state, timestamp_state, DiskEntry, UpdateState,
    UpdateStrategy,
};

verus! {

/// A file: its bytes and its recorded modification time.
pub ghost struct FileModel {
    pub content: Seq<u8>,
    pub modified: u64,
}

/// What a step does to the disk `d`. A write puts `body` at its path with
/// the time `now`; a rename moves the file, times included; a step on a
/// path that is absent changes nothing. Directories are not modelled.
pub open spec fn apply_step(
    d: Map<Seq<char>, FileModel>,
    s: StepView,
    body: Seq<u8>,
    now: u64,
) -> Map<Seq<char>, FileModel> {
    match s {
        StepView::CreateDirAll { .. } => d,
        StepView::WriteContent { path } => d.insert(path, FileModel { content: body, modified: now }),
        StepView::SetTimes { path, secs } => if d.contains_key(path) {
            d.insert(path, FileModel { content: d[path].content, modified: secs })
        } else {
            d
        },
        StepView::Rename { from, to } => if d.contains_key(from) {
            d.remove(from).insert(to, d[from])
        } else {
            d
        },
    }
}

/// The disk after all of `steps`, in order.
pub open spec fn run_plan(
    d: Map<Seq<char>, FileModel>,
    steps: Seq<StepView>,
    body: Seq<u8>,
    now: u64,
) -> Map<Seq<char>, FileModel>
    decreases steps.len(),
{
    if steps.len() == 0 {
        d
    } else {
        run_plan(apply_step(d, steps[0], body, now), steps.drop_first(), body, now)
    }
}

/// The disk when the process is killed during step `k`: the steps before it
/// are done, and a write in progress has left `partial` at its path.
pub open spec fn interrupted(
    d: Map<Seq<char>, FileModel>,
    steps: Seq<StepView>,
    k: int,
    body: Seq<u8>,
    now: u64,
    partial: Seq<u8>,
) -> Map<Seq<char>, FileModel> {
    let before = run_plan(d, steps.take(k), body, now);
    match steps[k] {
        StepView::WriteContent { path } => before.insert(
            path,
            FileModel { content: partial, modified: now },
        ),
        _ => before,
    }
}

/// What an inspection of `path` finds on `d`.
pub open spec fn observe(d: Map<Seq<char>, FileModel>, path: Seq<char>) -> DiskEntry {
    if d.contains_key(path) {
        DiskEntry::Present { modified: d[path].modified }
    } else {
        DiskEntry::Absent
    }
}

/// The step reads, writes or removes `p`.
pub open spec fn touches(s: StepView, p: Seq<char>) -> bool {
    match s {
        StepView::CreateDirAll { .. } => false,
        StepView::WriteContent { path } => path == p,
        StepView::SetTimes { path, .. } => path == p,
        StepView::Rename { from, to } => from == p || to == p,
    }
}

/// The time a fetch leaves on its file: the server's, else the write time.
pub open spec fn stamp(timestamp: Option<u64>, now: u64) -> u64 {
    match timestamp {
        Option::Some(t) => t,
        Option::None => now,
    }
}

/// Steps that do not touch `p` leave it as it was.
pub proof fn lemma_untouched(
    d: Map<Seq<char>, FileModel>,
    steps: Seq<StepView>,
    p: Seq<char>,
    body: Seq<u8>,
    now: u64,
)
    requires
        forall|i: int| 0 <= i < steps.len() ==> !touches(#[trigger] steps[i], p),
    ensures
        run_plan(d, steps, body, now).contains_key(p) == d.contains_key(p),
        d.contains_key(p) ==> run_plan(d, steps, body, now)[p] == d[p],
    decreases steps.len(),
{
    if steps.len() > 0 {
        let d1 = apply_step(d, steps[0], body, now);
        assert(!touches(steps[0], p));
        assert(d1.contains_key(p) == d.contains_key(p));
        assert(d.contains_key(p) ==> d1[p] == d[p]);
        let rest = steps.drop_first();
        assert forall|i: int| 0 <= i < rest.len() implies !touches(#[trigger] rest[i], p) by {
            assert(rest[i] == steps[i + 1]);
        }
        lemma_untouched(d1, rest, p, body, now);
    }
}

/// A complete fetch leaves the new file at the final path and no temporary.
pub proof fn lemma_run_fetch(
    d: Map<Seq<char>, FileModel>,
    a: ArtifactView,
    timestamp: Option<u64>,
    body: Seq<u8>,
    now: u64,
)
    requires
        a.wf(),
    ensures
        run_plan(d, fetch_plan(a, timestamp), body, now) == d.remove(a.tmp_path()).insert(
            a.final_path(),
            FileModel { content: body, modified: stamp(timestamp, now) },
        ),
{
    lemma_paths_distinct(a, seq![]);
    let tmp = a.tmp_path();
    let fin = a.final_path();
    let steps = fetch_plan(a, timestamp);
    let s1 = steps.drop_first();
    let s2 = s1.drop_first();
    let d2 = d.insert(tmp, FileModel { content: body, modified: now });
    assert(run_plan(d, steps, body, now) == run_plan(d, s1, body, now));
    assert(run_plan(d, s1, body, now) == run_plan(d2, s2, body, now));
    match timestamp {
        Option::None => {
            assert(s2 =~= seq![StepView::Rename { from: tmp, to: fin }]);
            let d3 = apply_step(d2, s2[0], body, now);
            assert(s2.drop_first() =~= Seq::<StepView>::empty());
            assert(run_plan(d2, s2, body, now) == run_plan(d3, s2.drop_first(), body, now));
            assert(d3 =~= d.remove(tmp).insert(fin, FileModel { content: body, modified: now }));
        },
        Option::Some(t) => {
            assert(s2 =~= seq![
                StepView::SetTimes { path: tmp, secs: t },
                StepView::Rename { from: tmp, to: fin },
            ]);
            let s3 = s2.drop_first();
            assert(s3 =~= seq![StepView::Rename { from: tmp, to: fin }]);
            assert(apply_step(d2, s2[0], body, now) == d.insert(
                tmp,
                FileModel { content: body, modified: t },
            ));
            let d3 = d.insert(tmp, FileModel { content: body, modified: t });
            let d4 = apply_step(d3, s3[0], body, now);
            assert(s3.drop_first() =~= Seq::<StepView>::empty());
            assert(run_plan(d2, s2, body, now) == run_plan(d3, s3, body, now));
            assert(run_plan(d3, s3, body, now) == run_plan(d4, s3.drop_first(), body, now));
            assert(d4 =~= d.remove(tmp).insert(fin, FileModel { content: body, modified: t }));
        },
    }
}

/// Shape of a fetch plan: only its last step, the rename of the temporary
/// onto the final path, touches the final path, and every write goes to the
/// temporary.
pub proof fn lemma_fetch_plan_shape(a: ArtifactView, timestamp: Option<u64>)
    requires
        a.wf(),
    ensures
        ({
            let f = fetch_plan(a, timestamp);
            &&& f.len() >= 3
            &&& f.last() == StepView::Rename { from: a.tmp_path(), to: a.final_path() }
            &&& forall|i: int| 0 <= i < f.len() - 1 ==> !touches(#[trigger] f[i], a.final_path())
            &&& forall|i: int|
                0 <= i < f.len() ==> (#[trigger] f[i] matches StepView::WriteContent { path } ==> path
                    == a.tmp_path())
        }),
{
    lemma_paths_distinct(a, seq![]);
}

/// Reconciling a current artifact, under any policy, finds it `UpToDate`,
/// plans no step and so leaves the disk as it was; a second reconciliation
/// therefore sees the same disk and finds it `UpToDate` again.
pub proof fn lemma_reconcile_current_is_idle(
    policy: UpdateStrategy,
    a: ArtifactView,
    d: Map<Seq<char>, FileModel>,
    timestamp: u64,
    date: Seq<char>,
    body: Seq<u8>,
    now: u64,
)
    requires
        d.contains_key(a.final_path()),
        timestamp <= d[a.final_path()].modified,
    ensures
        ({
            let state = policy_state(policy, timestamp_state(observe(d, a.final_path()), timestamp));
            let after = run_plan(
                d,
                reconcile_plan(policy, a, state, Option::Some(timestamp), date),
                body,
                now,
            );
            &&& state == UpdateState::UpToDate
            &&& reconcile_plan(policy, a, state, Option::Some(timestamp), date).len() == 0
            &&& after == d
            &&& policy_state(policy, timestamp_state(observe(after, a.final_path()), timestamp))
                == UpdateState::UpToDate
        }),
{
}

/// Reconciling text that equals the text on disk, under any policy, finds
/// it `UpToDate` and plans no step.
pub proof fn lemma_reconcile_same_text_is_idle(
    policy: UpdateStrategy,
    a: ArtifactView,
    d: Map<Seq<char>, FileModel>,
    text: Seq<char>,
    date: Seq<char>,
    body: Seq<u8>,
    now: u64,
)
    ensures
        ({
            let state = policy_state(policy, content_state(Option::Some(text), text));
            &&& state == UpdateState::UpToDate
            &&& reconcile_plan(policy, a, state, Option::None, date).len() == 0
            &&& run_plan(d, reconcile_plan(policy, a, state, Option::None, date), body, now) == d
        }),
{
}

/// Under `Archive`, carrying out an `OutOfDate` reconciliation leaves the
/// previous file, unchanged, under its archived name, and the new file at
/// the final path.
pub proof fn lemma_archive_before_overwrite(
    a: ArtifactView,
    d: Map<Seq<char>, FileModel>,
    timestamp: Option<u64>,
    date: Seq<char>,
    body: Seq<u8>,
    now: u64,
)
    requires
        a.wf(),
        d.contains_key(a.final_path()),
    ensures
        ({
            let after = run_plan(
                d,
                reconcile_plan(UpdateStrategy::Archive, a, UpdateState::OutOfDate, timestamp, date),
                body,
                now,
            );
            &&& after.contains_key(a.archived_path(date))
            &&& after[a.archived_path(date)] == d[a.final_path()]
            &&& after.contains_key(a.final_path())
            &&& after[a.final_path()] == FileModel { content: body, modified: stamp(timestamp, now) }
        }),
{
    lemma_paths_distinct(a, date);
    let fin = a.final_path();
    let arch = a.archived_path(date);
    let f = fetch_plan(a, timestamp);
    let rename = StepView::Rename { from: fin, to: arch };
    let plan = reconcile_plan(UpdateStrategy::Archive, a, UpdateState::OutOfDate, timestamp, date);
    assert(plan == seq![rename] + f);
    assert(plan.drop_first() =~= f);
    let d1 = apply_step(d, rename, body, now);
    assert(run_plan(d, plan, body, now) == run_plan(d1, f, body, now));
    lemma_run_fetch(d1, a, timestamp, body, now);
}

/// Under `NoUpdate` an existing artifact is reported `UpToDate` whatever
/// the server's timestamp or text, and no step touches the disk.
pub proof fn lemma_no_update_keeps_existing(
    a: ArtifactView,
    d: Map<Seq<char>, FileModel>,
    timestamp: u64,
    new_text: Seq<char>,
    old_text: Seq<char>,
    date: Seq<char>,
    body: Seq<u8>,
    now: u64,
)
    requires
        d.contains_key(a.final_path()),
    ensures
        ({
            let by_time = policy_state(
                UpdateStrategy::NoUpdate,
                timestamp_state(observe(d, a.final_path()), timestamp),
            );
            let by_text = policy_state(
                UpdateStrategy::NoUpdate,
                content_state(Option::Some(old_text), new_text),
            );
            &&& by_time == UpdateState::UpToDate
            &&& by_text == UpdateState::UpToDate
            &&& run_plan(
                d,
                reconcile_plan(UpdateStrategy::NoUpdate, a, by_time, Option::Some(timestamp), date),
                body,
                now,
            ) == d
            &&& run_plan(
                d,
                reconcile_plan(UpdateStrategy::NoUpdate, a, by_text, Option::None, date),
                body,
                now,
            ) == d
        }),
{
}

/// A reconciliation killed during any of its steps, a write included, leaves
/// the final path either absent or holding the previous complete file.
pub proof fn lemma_interrupted_plan_keeps_destination(
    policy: UpdateStrategy,
    a: ArtifactView,
    d: Map<Seq<char>, FileModel>,
    state: UpdateState,
    timestamp: Option<u64>,
    date: Seq<char>,
    body: Seq<u8>,
    now: u64,
    k: int,
    partial: Seq<u8>,
)
    requires
        a.wf(),
        0 <= k < reconcile_plan(policy, a, state, timestamp, date).len(),
    ensures
        ({
            let cut = interrupted(
                d,
                reconcile_plan(policy, a, state, timestamp, date),
                k,
                body,
                now,
                partial,
            );
            let fin = a.final_path();
            !cut.contains_key(fin) || (d.contains_key(fin) && cut[fin] == d[fin])
        }),
{
    lemma_paths_distinct(a, date);
    lemma_fetch_plan_shape(a, timestamp);
    let fin = a.final_path();
    let f = fetch_plan(a, timestamp);
    let plan = reconcile_plan(policy, a, state, timestamp, date);
    if archive_required(policy, state) {
        let arch = a.archived_path(date);
        let rename = StepView::Rename { from: fin, to: arch };
        assert(plan == seq![rename] + f);
        if k == 0 {
            assert(plan.take(0) =~= Seq::<StepView>::empty());
            assert(run_plan(d, plan.take(0), body, now) == d);
        } else {
            let pre = plan.take(k);
            let d1 = apply_step(d, rename, body, now);
            assert(!d1.contains_key(fin));
            assert(pre.drop_first() =~= f.take(k - 1));
            assert(run_plan(d, pre, body, now) == run_plan(d1, f.take(k - 1), body, now));
            assert forall|i: int| 0 <= i < f.take(k - 1).len() implies !touches(
                #[trigger] f.take(k - 1)[i],
                fin,
            ) by {
                assert(f.take(k - 1)[i] == f[i]);
            }
            lemma_untouched(d1, f.take(k - 1), fin, body, now);
            assert(plan[k] == f[k - 1]);
        }
    } else if state != UpdateState::UpToDate {
        assert(plan == f);
        assert forall|i: int| 0 <= i < f.take(k).len() implies !touches(
            #[trigger] f.take(k)[i],
            fin,
        ) by {
            assert(f.take(k)[i] == f[i]);
        }
        lemma_untouched(d, f.take(k), fin, body, now);
    }
}

/// After a fetch stamped with `timestamp`, the artifact reconciles as
/// `UpToDate` against that same timestamp, and, under a policy that
/// updates, as `OutOfDate` against the next second.
pub proof fn lemma_timestamp_round_trip(
    policy: UpdateStrategy,
    a: ArtifactView,
    d: Map<Seq<char>, FileModel>,
    timestamp: u64,
    date: Seq<char>,
    body: Seq<u8>,
    now: u64,
)
    requires
        a.wf(),
        policy_state(policy, timestamp_state(observe(d, a.final_path()), timestamp))
            != UpdateState::UpToDate,
    ensures
        ({
            let state = policy_state(policy, timestamp_state(observe(d, a.final_path()), timestamp));
            let after = run_plan(
                d,
                reconcile_plan(policy, a, state, Option::Some(timestamp), date),
                body,
                now,
            );
            &&& observe(after, a.final_path()) == DiskEntry::Present { modified: timestamp }
            &&& policy_state(policy, timestamp_state(observe(after, a.final_path()), timestamp))
                == UpdateState::UpToDate
            &&& (timestamp < u64::MAX && policy != UpdateStrategy::NoUpdate) ==> policy_state(
                policy,
                timestamp_state(observe(after, a.final_path()), (timestamp + 1) as u64),
            ) == UpdateState::OutOfDate
        }),
{
    let state = policy_state(policy, timestamp_state(observe(d, a.final_path()), timestamp));
    if archive_required(policy, state) {
        lemma_archive_before_overwrite(a, d, Option::Some(timestamp), date, body, now);
    } else {
        lemma_run_fetch(d, a, Option::Some(timestamp), body, now);
    }
}

} // verus!
