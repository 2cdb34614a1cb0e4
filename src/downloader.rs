//! The standalone downloader's options: what to do with a file whose
//! server copy is newer, and how to store web pages.

use vstd::prelude::*;

verus! {

/// Handling of a file whose server copy is newer than the one on disk.
#[derive(Debug, Clone, Copy, PartialEq, Eq, Structural)]
pub enum FileUpdateStrategy {
    /// Keep the old file under a dated name and download the new one.
    Archive,
    /// Replace the old file.
    Overwrite,
    /// Keep the old file; do not download.
    Ignore,
}

/// How web pages are stored.
#[derive(Debug, Clone, Copy, PartialEq, Eq, Structural)]
pub enum SiteStore {
    /// A PDF of one single page.
    MonoPDF,
    /// A standard paged PDF.
    StandardPDF,
    /// Web pages are not stored.
    Disabled,
}

/// Options of the downloader.
#[derive(Debug, Clone, Copy, PartialEq, Eq, Structural)]
pub struct DownloadOptions {
    pub file_update_strategy: FileUpdateStrategy,
    pub site_store: SiteStore,
    /// Also refetch files whose modification time is unknown.
    pub force_update: bool,
}

impl Default for DownloadOptions {
    fn default() -> (r: DownloadOptions)
        ensures
            r == (DownloadOptions {
                file_update_strategy: FileUpdateStrategy::Archive,
                site_store: SiteStore::MonoPDF,
                force_update: false,
            }),
    {
        DownloadOptions {
            file_update_strategy: FileUpdateStrategy::Archive,
            site_store: SiteStore::MonoPDF,
            force_update: false,
        }
    }
}

/// What to do with one file.
#[derive(Debug, Clone, Copy, PartialEq, Eq, Structural)]
pub enum FileAction {
    /// Leave the file on disk as it is.
    Keep,
    /// Download the file (it is missing, or will be overwritten).
    Download,
    /// Rename the old file to its dated name, then download.
    ArchiveThenDownload,
}

/// The action for a file: `on_disk` is `None` when it is missing, else the
/// modification time the file system gives for it, if any; `last_modified`
/// is the server's time, if known.
pub open spec fn file_action(
    strategy: FileUpdateStrategy,
    on_disk: Option<Option<u64>>,
    last_modified: Option<u64>,
) -> FileAction {
    match on_disk {
        Option::None => FileAction::Download,
        Option::Some(file_time) => match (last_modified, file_time) {
            (Option::Some(server), Option::Some(local)) => if local >= server {
                FileAction::Keep
            } else {
                match strategy {
                    FileUpdateStrategy::Archive => FileAction::ArchiveThenDownload,
                    FileUpdateStrategy::Overwrite => FileAction::Download,
                    FileUpdateStrategy::Ignore => FileAction::Keep,
                }
            },
            _ => FileAction::Keep,
        },
    }
}

impl FileUpdateStrategy {
    /// Decides whether a file is downloaded, and whether the old one is
    /// archived first (see `file_action`). A file without a known time, on
    /// the server or on disk, is kept.
    pub fn archive_file(&self, on_disk: Option<Option<u64>>, last_modified: Option<u64>) -> (r:
        FileAction)
        ensures
            r == file_action(*self, on_disk, last_modified),
    {
        let file_time = match on_disk {
            Option::None => return FileAction::Download,
            Option::Some(t) => t,
        };
        let server = match last_modified {
            Option::None => return FileAction::Keep,
            Option::Some(s) => s,
        };
        let local = match file_time {
            Option::None => return FileAction::Keep,
            Option::Some(l) => l,
        };
        if local >= server {
            return FileAction::Keep;
        }
        match self {
            FileUpdateStrategy::Archive => FileAction::ArchiveThenDownload,
            FileUpdateStrategy::Overwrite => FileAction::Download,
            FileUpdateStrategy::Ignore => FileAction::Keep,
        }
    }
}

impl SiteStore {
    /// Whether pages are rendered at all.
    pub fn stores_pages(&self) -> (r: bool)
        ensures
            r == (*self != SiteStore::Disabled),
    {
        match self {
            SiteStore::Disabled => false,
            _ => true,
        }
    }
}

} // verus!
