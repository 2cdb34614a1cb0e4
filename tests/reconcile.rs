use moo_dl::artifact::{archive_date, ArtifactPath, TMP_EXTENSION};
use moo_dl::reconcile::{
    archive_file, fetch_steps, reconcile_contents, reconcile_exists, reconcile_timestamp, FsStep,
    ReconcileError,
};
use moo_dl::update::{DiskEntry, UpdateState, UpdateStrategy};
use std::collections::HashMap;

/// A file in the simulated disk: its bytes and modification time.
#[derive(Clone, Debug, PartialEq)]
struct SimFile {
    content: Vec<u8>,
    modified: u64,
}

/// Carries out `steps` on a simulated disk, writing `body` at time `now`.
fn run(disk: &mut HashMap<String, SimFile>, steps: &[FsStep], body: &[u8], now: u64) {
    for step in steps {
        match step {
            FsStep::CreateDirAll { .. } => {}
            FsStep::WriteContent { path } => {
                disk.insert(path.clone(), SimFile { content: body.to_vec(), modified: now });
            }
            FsStep::SetTimes { path, secs } => {
                if let Some(f) = disk.get_mut(path) {
                    f.modified = *secs;
                }
            }
            FsStep::Rename { from, to } => {
                if let Some(f) = disk.remove(from) {
                    disk.insert(to.clone(), f);
                }
            }
        }
    }
}

fn observe(disk: &HashMap<String, SimFile>, path: &str) -> DiskEntry {
    match disk.get(path) {
        Some(f) => DiskEntry::Present { modified: f.modified },
        None => DiskEntry::Absent,
    }
}

fn report() -> ArtifactPath {
    ArtifactPath::new("course/week1".to_string(), "report".to_string(), Some("pdf".to_string()))
}

#[test]
fn archive_scenario() {
    let a = report();
    let dest = a.final_path();
    assert_eq!(dest, "course/week1/report.pdf");
    let mut disk: HashMap<String, SimFile> = HashMap::new();

    let first =
        reconcile_timestamp(UpdateStrategy::Archive, &a, &observe(&disk, &dest), 1000).unwrap();
    assert_eq!(first.state, UpdateState::Missing);
    run(&mut disk, &first.steps, b"v1", 5000);
    assert_eq!(disk.get(&dest).unwrap().modified, 1000);

    let second =
        reconcile_timestamp(UpdateStrategy::Archive, &a, &observe(&disk, &dest), 1000).unwrap();
    assert_eq!(second.state, UpdateState::UpToDate);
    assert!(second.steps.is_empty());

    let third =
        reconcile_timestamp(UpdateStrategy::Archive, &a, &observe(&disk, &dest), 2000).unwrap();
    assert_eq!(third.state, UpdateState::OutOfDate);
    let date = chrono::DateTime::from_timestamp(1000, 0)
        .unwrap()
        .with_timezone(&chrono::Local)
        .to_rfc3339();
    let archived = format!("course/week1/report_{}.pdf", date);
    match &third.steps[0] {
        FsStep::Rename { from, to } => {
            assert_eq!(from, &dest);
            assert_eq!(to, &archived);
        }
        other => panic!("expected the archive rename first, got {:?}", other),
    }
    run(&mut disk, &third.steps, b"v2", 6000);
    assert_eq!(disk.get(&archived).unwrap(), &SimFile { content: b"v1".to_vec(), modified: 1000 });
    assert_eq!(disk.get(&dest).unwrap(), &SimFile { content: b"v2".to_vec(), modified: 2000 });
    assert!(!disk.contains_key(&a.tmp_path()));
}

#[test]
fn unchanged_artifact_is_idle_under_every_policy() {
    let a = report();
    for policy in [UpdateStrategy::NoUpdate, UpdateStrategy::Update, UpdateStrategy::Archive] {
        let entry = DiskEntry::Present { modified: 1000 };
        for _ in 0..2 {
            let r = reconcile_timestamp(policy, &a, &entry, 1000).unwrap();
            assert_eq!(r.state, UpdateState::UpToDate);
            assert!(r.steps.is_empty());
        }
        let text = reconcile_contents(policy, &a, &Some("same".to_string()), 1000, "same")
            .unwrap();
        assert_eq!(text.state, UpdateState::UpToDate);
        assert!(text.steps.is_empty());
    }
}

#[test]
fn no_update_never_touches_existing_file() {
    let a = report();
    let entry = DiskEntry::Present { modified: 10 };
    for ts in [0u64, 10, 11, u64::MAX] {
        let r = reconcile_timestamp(UpdateStrategy::NoUpdate, &a, &entry, ts).unwrap();
        assert_eq!(r.state, UpdateState::UpToDate);
        assert!(r.steps.is_empty());
    }
    let r = reconcile_contents(UpdateStrategy::NoUpdate, &a, &Some("old".to_string()), 10, "new")
        .unwrap();
    assert_eq!(r.state, UpdateState::UpToDate);
    assert!(r.steps.is_empty());
}

#[test]
fn interrupted_fetch_leaves_destination_intact() {
    let a = report();
    let dest = a.final_path();
    let old = SimFile { content: b"complete old".to_vec(), modified: 100 };
    for policy in [UpdateStrategy::Update, UpdateStrategy::Archive] {
        let plan = reconcile_timestamp(policy, &a, &DiskEntry::Present { modified: 100 }, 200)
            .unwrap();
        for k in 0..plan.steps.len() {
            let mut disk = HashMap::new();
            disk.insert(dest.clone(), old.clone());
            run(&mut disk, &plan.steps[..k], b"complete new", 300);
            if let FsStep::WriteContent { path } = &plan.steps[k] {
                disk.insert(path.clone(), SimFile { content: b"compl".to_vec(), modified: 300 });
            }
            match disk.get(&dest) {
                None => assert_eq!(policy, UpdateStrategy::Archive),
                Some(f) => assert_eq!(f, &old),
            }
        }
    }
}

#[test]
fn timestamp_round_trip() {
    let a = report();
    let dest = a.final_path();
    let mut disk = HashMap::new();
    let r = reconcile_timestamp(UpdateStrategy::Update, &a, &observe(&disk, &dest), 777).unwrap();
    run(&mut disk, &r.steps, b"x", 999);
    let same = reconcile_timestamp(UpdateStrategy::Update, &a, &observe(&disk, &dest), 777).unwrap();
    assert_eq!(same.state, UpdateState::UpToDate);
    let next = reconcile_timestamp(UpdateStrategy::Update, &a, &observe(&disk, &dest), 778).unwrap();
    assert_eq!(next.state, UpdateState::OutOfDate);
}

#[test]
fn fetch_steps_write_temporary_then_rename() {
    let a = report();
    let steps = fetch_steps(&a, Some(42));
    let tmp = format!("course/week1/report.{}", TMP_EXTENSION);
    assert_eq!(a.tmp_path(), tmp);
    assert_eq!(steps.len(), 4);
    assert!(matches!(&steps[0], FsStep::CreateDirAll { dir } if dir == "course/week1"));
    assert!(matches!(&steps[1], FsStep::WriteContent { path } if *path == tmp));
    assert!(matches!(&steps[2], FsStep::SetTimes { path, secs: 42 } if *path == tmp));
    assert!(
        matches!(&steps[3], FsStep::Rename { from, to } if *from == tmp && to == "course/week1/report.pdf")
    );
    assert_eq!(fetch_steps(&a, None).len(), 3);
}

#[test]
fn content_reconciliation_by_policy() {
    let a = ArtifactPath::new("d".to_string(), "label".to_string(), Some("html".to_string()));
    let r = reconcile_contents(UpdateStrategy::Update, &a, &Some("old".to_string()), 5, "new")
        .unwrap();
    assert_eq!(r.state, UpdateState::OutOfDate);
    assert_eq!(r.steps.len(), 3);
    let r = reconcile_contents(UpdateStrategy::Archive, &a, &Some("old".to_string()), 5, "new")
        .unwrap();
    assert_eq!(r.state, UpdateState::OutOfDate);
    assert_eq!(r.steps.len(), 4);
    let r = reconcile_contents(UpdateStrategy::Archive, &a, &None, 0, "new").unwrap();
    assert_eq!(r.state, UpdateState::Missing);
    assert_eq!(r.steps.len(), 3);
}

#[test]
fn archive_date_out_of_range_is_an_error() {
    let a = report();
    let entry = DiskEntry::Present { modified: 253402300800 };
    let r = reconcile_timestamp(UpdateStrategy::Archive, &a, &entry, u64::MAX);
    assert_eq!(r.unwrap_err(), ReconcileError::ArchiveDateOutOfRange);
    let r = reconcile_timestamp(UpdateStrategy::Update, &a, &entry, u64::MAX).unwrap();
    assert_eq!(r.state, UpdateState::OutOfDate);
    assert!(archive_date(253402300800).is_none());
}

#[test]
fn archive_date_is_local_rfc3339() {
    let expected = chrono::DateTime::from_timestamp(1704067200, 0)
        .unwrap()
        .with_timezone(&chrono::Local)
        .to_rfc3339();
    assert_eq!(archive_date(1704067200), Some(expected));
}

#[test]
fn archived_name_goes_before_extension() {
    let a = ArtifactPath::new("".to_string(), "report".to_string(), Some("pdf".to_string()));
    assert_eq!(a.archived_path("2024-01-01T00:00:00+00:00"), "report_2024-01-01T00:00:00+00:00.pdf");
    let b = ArtifactPath::new("dir/".to_string(), "notes".to_string(), None);
    assert_eq!(b.archived_path("D"), "dir/notes_D");
    assert_eq!(b.final_path(), "dir/notes");
}

#[test]
fn existence_fast_path() {
    let a = report();
    let r = reconcile_exists(&a, &DiskEntry::Present { modified: 0 });
    assert_eq!(r.state, UpdateState::UpToDate);
    assert!(r.steps.is_empty());
    let r = reconcile_exists(&a, &DiskEntry::Absent);
    assert_eq!(r.state, UpdateState::Missing);
    assert_eq!(r.steps.len(), 3);
}

#[test]
fn update_strategy_checks() {
    let e = DiskEntry::Present { modified: 50 };
    assert_eq!(UpdateStrategy::check_exists(&e), UpdateState::UpToDate);
    assert_eq!(UpdateStrategy::check_exists(&DiskEntry::Absent), UpdateState::Missing);
    assert_eq!(UpdateStrategy::timestamp_check_file_date(&e, 51), UpdateState::OutOfDate);
    assert_eq!(UpdateStrategy::timestamp_check_file_date(&e, 50), UpdateState::UpToDate);
    assert_eq!(UpdateStrategy::Update.timestamp_check_up_to_date(&e, 51), UpdateState::OutOfDate);
    assert_eq!(UpdateStrategy::NoUpdate.timestamp_check_up_to_date(&e, 51), UpdateState::UpToDate);
    assert!(UpdateStrategy::Archive.needs_archive(UpdateState::OutOfDate));
    assert!(!UpdateStrategy::Update.needs_archive(UpdateState::OutOfDate));
    assert_eq!(
        UpdateStrategy::file_check_file_contents(&Some("a".to_string()), "b"),
        UpdateState::OutOfDate
    );
    assert_eq!(UpdateStrategy::file_check_file_contents(&None, "b"), UpdateState::Missing);
}

#[test]
fn archive_step_renames_to_dated_name() {
    let a = report();
    let date = chrono::DateTime::from_timestamp(86400, 0)
        .unwrap()
        .with_timezone(&chrono::Local)
        .to_rfc3339();
    match archive_file(&a, 86400).unwrap() {
        FsStep::Rename { from, to } => {
            assert_eq!(from, "course/week1/report.pdf");
            assert_eq!(to, format!("course/week1/report_{}.pdf", date));
        }
        other => panic!("expected a rename, got {:?}", other),
    }
    assert_eq!(archive_file(&a, 253402300800).unwrap_err(), ReconcileError::ArchiveDateOutOfRange);
}
