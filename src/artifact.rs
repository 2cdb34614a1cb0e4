//! Where an artifact lives on disk: its final path, the sibling temporary
//! path a fetch writes to, and the dated name an archived version takes.

use vstd::prelude::*;

use crate::text::{join_path, join_spec};

verus! {

/// Extension of the temporary sibling a fetch writes before the final rename.
/// It is never the extension of a finished artifact.
pub const TMP_EXTENSION: &'static str = "tmp_bZpbocXJQkxt_moo-dl";

/// Latest modification time (unix seconds, end of year 9999) that an
/// archive suffix can be formatted for.
pub const MAX_ARCHIVE_SECS: u64 = 253402300799;

/// A destination on disk: directory, file stem and the extension chosen by
/// the fetch primitive.
#[derive(Debug, Clone)]
pub struct ArtifactPath {
    pub dir: String,
    pub stem: String,
    pub ext: Option<String>,
}

/// The mathematical model of an `ArtifactPath`.
pub ghost struct ArtifactView {
    pub dir: Seq<char>,
    pub stem: Seq<char>,
    pub ext: Option<Seq<char>>,
}

impl View for ArtifactPath {
    type V = ArtifactView;

    open spec fn view(&self) -> ArtifactView {
        ArtifactView {
            dir: self.dir@,
            stem: self.stem@,
            ext: match self.ext {
                Option::None => Option::None,
                Option::Some(e) => Option::Some(e@),
            },
        }
    }
}

/// `.` followed by `e`.
pub open spec fn dotted(e: Seq<char>) -> Seq<char> {
    seq!['.'] + e
}

impl ArtifactView {
    /// Directory and stem, without any extension.
    pub open spec fn base(self) -> Seq<char> {
        join_spec(self.dir, self.stem)
    }

    /// Where the finished artifact lives.
    pub open spec fn final_path(self) -> Seq<char> {
        match self.ext {
            Option::None => self.base(),
            Option::Some(e) => self.base() + dotted(e),
        }
    }

    /// Where a fetch writes before the final rename.
    pub open spec fn tmp_path(self) -> Seq<char> {
        self.base() + dotted(TMP_EXTENSION@)
    }

    /// Where the previous version goes when it is archived with `date`.
    pub open spec fn archived_path(self, date: Seq<char>) -> Seq<char> {
        match self.ext {
            Option::None => self.base() + seq!['_'] + date,
            Option::Some(e) => self.base() + seq!['_'] + date + dotted(e),
        }
    }

    /// The extension is never the temporary marker.
    pub open spec fn wf(self) -> bool {
        self.ext != Option::Some(TMP_EXTENSION@)
    }
}

/// The three paths of one artifact are pairwise distinct.
pub proof fn lemma_paths_distinct(a: ArtifactView, date: Seq<char>)
    requires
        a.wf(),
    ensures
        a.final_path() != a.tmp_path(),
        a.archived_path(date) != a.final_path(),
        a.archived_path(date) != a.tmp_path(),
{
    let b = a.base();
    let n = b.len() as int;
    let t = a.tmp_path();
    let arch = a.archived_path(date);
    assert(t[n] == '.');
    assert(arch[n] == '_');
    match a.ext {
        Option::None => {
            assert(a.final_path().len() == n);
        },
        Option::Some(e) => {
            let f = a.final_path();
            assert(f[n] == '.');
            if f == t {
                assert(f.subrange(n + 1, f.len() as int) =~= e);
                assert(t.subrange(n + 1, t.len() as int) =~= TMP_EXTENSION@);
            }
        },
    }
}

impl ArtifactPath {
    pub fn new(dir: String, stem: String, ext: Option<String>) -> (r: ArtifactPath)
        ensures
            r.dir@ == dir@,
            r.stem@ == stem@,
            r@.ext == (match ext {
                Option::None => Option::None,
                Option::Some(e) => Option::Some(e@),
            }),
    {
        ArtifactPath { dir, stem, ext }
    }

    fn base(&self) -> (r: String)
        ensures
            r@ == self@.base(),
    {
        join_path(self.dir.as_str(), self.stem.as_str())
    }

    /// The path of the finished artifact.
    pub fn final_path(&self) -> (r: String)
        ensures
            r@ == self@.final_path(),
    {
        proof {
            reveal_strlit(".");
        }
        let mut p = self.base();
        match &self.ext {
            Option::None => {},
            Option::Some(e) => {
                p.append(".");
                p.append(e.as_str());
                assert(p@ =~= self@.final_path());
            },
        }
        p
    }

    /// The sibling temporary path a fetch writes to.
    pub fn tmp_path(&self) -> (r: String)
        ensures
            r@ == self@.tmp_path(),
    {
        proof {
            reveal_strlit(".");
        }
        let mut p = self.base();
        p.append(".");
        p.append(TMP_EXTENSION);
        assert(p@ =~= self@.tmp_path());
        p
    }

    /// The name the current version takes when archived with `date`: the
    /// date is inserted before the extension.
    pub fn archived_path(&self, date: &str) -> (r: String)
        ensures
            r@ == self@.archived_path(date@),
    {
        proof {
            reveal_strlit(".");
            reveal_strlit("_");
        }
        let mut p = self.base();
        p.append("_");
        p.append(date);
        match &self.ext {
            Option::None => {},
            Option::Some(e) => {
                p.append(".");
                p.append(e.as_str());
            },
        }
        assert(p@ =~= self@.archived_path(date@));
        p
    }

    /// The same destination with another extension.
    pub fn with_extension(&self, ext: &str) -> (r: ArtifactPath)
        ensures
            r@ == (ArtifactView { ext: Option::Some(ext@), ..self@ }),
    {
        ArtifactPath {
            dir: self.dir.clone(),
            stem: self.stem.clone(),
            ext: Option::Some(String::from_str(ext)),
        }
    }
}

/// Relies on chrono: `DateTime::from_timestamp` for the second `secs`, shown
/// with `with_timezone(&Local)` in the machine's time zone and written by
/// `to_rfc3339`. The offset depends on the machine, so only the shape of the
/// result is stated: `None` where chrono has no such date, else a non-empty
/// string. Within the admitted range `from_timestamp` always finds the date.
#[verifier::external_body]
fn local_rfc3339(secs: i64) -> (r: Option<String>)
    requires
        0 <= secs <= MAX_ARCHIVE_SECS,
    ensures
        r is Some,
        r matches Option::Some(d) ==> d@.len() > 0,
{
    chrono::DateTime::from_timestamp(secs, 0)
        .map(|t| t.with_timezone(&chrono::Local).to_rfc3339())
}

/// The date suffix for an archived version last modified at `modified`, in
/// the local time zone. `None` exactly where the time lies past the year 9999.
pub fn archive_date(modified: u64) -> (r: Option<String>)
    ensures
        r is None <==> modified > MAX_ARCHIVE_SECS,
        r matches Option::Some(d) ==> d@.len() > 0,
{
    if modified > MAX_ARCHIVE_SECS {
        return Option::None;
    }
    local_rfc3339(modified as i64)
}

} // verus!
