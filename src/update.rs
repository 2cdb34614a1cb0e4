//! Deciding, from what lies on disk and what the server reports, whether an
//! artifact is missing, stale or current under the configured policy.

use vstd::prelude::*;

verus! {

/// The configured, process-wide policy for artifacts that already exist.
#[derive(Debug, Clone, Copy, PartialEq, Eq, Structural, Hash)]
pub enum UpdateStrategy {
    /// Never refetch an existing artifact; only fill gaps.
    NoUpdate,
    /// Overwrite a stale artifact in place.
    Update,
    /// Rename a stale artifact with a date suffix, then fetch it fresh.
    Archive,
}

/// The outcome of one reconciliation.
#[derive(Debug, Clone, Copy, PartialEq, Eq, Structural)]
pub enum UpdateState {
    Missing,
    OutOfDate,
    UpToDate,
}

/// What an inspection of the destination path found: nothing, or a file
/// with its recorded modification time in unix seconds.
#[derive(Debug, Clone, Copy, PartialEq, Eq, Structural)]
pub enum DiskEntry {
    Absent,
    Present { modified: u64 },
}

/// Existence alone: a present file is always current.
pub open spec fn exists_state(entry: DiskEntry) -> UpdateState {
    match entry {
        DiskEntry::Absent => UpdateState::Missing,
        DiskEntry::Present { .. } => UpdateState::UpToDate,
    }
}

/// A present file is stale exactly when the server reports a later time.
pub open spec fn timestamp_state(entry: DiskEntry, timestamp: u64) -> UpdateState {
    match entry {
        DiskEntry::Absent => UpdateState::Missing,
        DiskEntry::Present { modified } => if timestamp > modified {
            UpdateState::OutOfDate
        } else {
            UpdateState::UpToDate
        },
    }
}

/// A present file is stale exactly when its text differs from the new text.
pub open spec fn content_state(existing: Option<Seq<char>>, new_content: Seq<char>) -> UpdateState {
    match existing {
        Option::None => UpdateState::Missing,
        Option::Some(old) => if old == new_content {
            UpdateState::UpToDate
        } else {
            UpdateState::OutOfDate
        },
    }
}

/// The outcome under a policy: `NoUpdate` reports an existing file as
/// current even when stale; `Update` and `Archive` keep the freshness outcome.
pub open spec fn policy_state(policy: UpdateStrategy, fresh: UpdateState) -> UpdateState {
    match policy {
        UpdateStrategy::NoUpdate => if fresh == UpdateState::Missing {
            UpdateState::Missing
        } else {
            UpdateState::UpToDate
        },
        _ => fresh,
    }
}

/// Whether the existing file must be renamed away before the fetch.
pub open spec fn archive_required(policy: UpdateStrategy, state: UpdateState) -> bool {
    policy == UpdateStrategy::Archive && state == UpdateState::OutOfDate
}

impl UpdateStrategy {
    /// Existence check: `UpToDate` if the file exists, `Missing` if not.
    pub fn check_exists(entry: &DiskEntry) -> (r: UpdateState)
        ensures
            r == exists_state(*entry),
            r != UpdateState::OutOfDate,
    {
        match entry {
            DiskEntry::Absent => UpdateState::Missing,
            DiskEntry::Present { .. } => UpdateState::UpToDate,
        }
    }

    /// Compares the recorded modification time with the server's timestamp.
    pub fn timestamp_check_file_date(entry: &DiskEntry, timestamp: u64) -> (r: UpdateState)
        ensures
            r == timestamp_state(*entry, timestamp),
    {
        match entry {
            DiskEntry::Absent => UpdateState::Missing,
            DiskEntry::Present { modified } => {
                if timestamp > *modified {
                    UpdateState::OutOfDate
                } else {
                    UpdateState::UpToDate
                }
            },
        }
    }

    /// Compares the text on disk (if any) with the newly fetched text.
    pub fn file_check_file_contents(existing: &Option<String>, new_content: &str) -> (r:
        UpdateState)
        ensures
            r == content_state(view_text(existing), new_content@),
    {
        match existing {
            Option::None => UpdateState::Missing,
            Option::Some(old) => {
                let fresh = String::from_str(new_content);
                if *old == fresh {
                    UpdateState::UpToDate
                } else {
                    UpdateState::OutOfDate
                }
            },
        }
    }

    /// Timestamp reconciliation under this policy.
    pub fn timestamp_check_up_to_date(&self, entry: &DiskEntry, timestamp: u64) -> (r:
        UpdateState)
        ensures
            r == policy_state(*self, timestamp_state(*entry, timestamp)),
            *self == UpdateStrategy::NoUpdate ==> r == exists_state(*entry),
    {
        match self {
            UpdateStrategy::NoUpdate => UpdateStrategy::check_exists(entry),
            _ => UpdateStrategy::timestamp_check_file_date(entry, timestamp),
        }
    }

    /// Content-equality reconciliation under this policy.
    pub fn file_check_up_to_date(&self, existing: &Option<String>, new_content: &str) -> (r:
        UpdateState)
        ensures
            r == policy_state(*self, content_state(view_text(existing), new_content@)),
    {
        match self {
            UpdateStrategy::NoUpdate => match existing {
                Option::None => UpdateState::Missing,
                Option::Some(_) => UpdateState::UpToDate,
            },
            _ => UpdateStrategy::file_check_file_contents(existing, new_content),
        }
    }

    /// Whether a reconciliation with this outcome renames the old file first.
    pub fn needs_archive(&self, state: UpdateState) -> (r: bool)
        ensures
            r == archive_required(*self, state),
    {
        match self {
            UpdateStrategy::Archive => state == UpdateState::OutOfDate,
            _ => false,
        }
    }
}

/// The text of an optional string, as a sequence of characters.
pub open spec fn view_text(s: &Option<String>) -> Option<Seq<char>> {
    match s {
        Option::None => Option::None,
        Option::Some(t) => Option::Some(t@),
    }
}

} // verus!
