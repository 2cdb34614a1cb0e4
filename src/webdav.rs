//! Shared-drive mirroring over WebDAV: finding share links, naming entries,
//! and deciding from a directory listing what to fetch and where to recurse.

use vstd::prelude::*;

use crate::text::{chars_of, contains_chars, contains_seq, string_from_chars, strings_view};
use crate::pattern::{regex_find_all, regex_match_texts, regex_valid};
use crate::url_parts::{parse_url, parsed_url, UrlView};
use crate::youtube::ExtractError;

verus! {

/// `s` with its `%XY` escapes decoded and invalid UTF-8 replaced.
pub uninterp spec fn percent_decoded(s: Seq<char>) -> Seq<char>;

/// Relies on percent_encoding's `percent_decode_str` with
/// `decode_utf8_lossy`: the result depends on the text alone.
#[verifier::external_body]
fn percent_decode_lossy(s: &str) -> (r: String)
    ensures
        r@ == percent_decoded(s@),
{
    percent_encoding::percent_decode_str(s).decode_utf8_lossy().into_owned()
}

/// Seconds since the epoch of an RFC 2822 date, as chrono reads it.
pub uninterp spec fn rfc2822_seconds(s: Seq<char>) -> Option<i64>;

/// Relies on chrono's `DateTime::parse_from_rfc2822` and `timestamp`: the
/// result depends on the text alone.
#[verifier::external_body]
fn parse_rfc2822(s: &str) -> (r: Option<i64>)
    ensures
        r == rfc2822_seconds(s@),
{
    chrono::DateTime::parse_from_rfc2822(s).ok().map(|d| d.timestamp())
}

/// A modification time sent by the server: absent stays absent, a date
/// before the epoch or one that does not parse is refused.
pub open spec fn http_time(s: Option<Seq<char>>) -> Result<Option<u64>, ()> {
    match s {
        Option::None => Ok(Option::None),
        Option::Some(t) => match rfc2822_seconds(t) {
            Option::Some(secs) => if secs >= 0 {
                Ok(Option::Some(secs as u64))
            } else {
                Err(())
            },
            Option::None => Err(()),
        },
    }
}

/// A `getlastmodified` value that could not be read.
#[derive(Debug, Clone, Copy, PartialEq, Eq, Structural)]
pub struct InvalidHttpTime;

/// Reads a server modification time (see `http_time`).
pub fn deserialize_http_timestamp(s: &Option<String>) -> (r: Result<Option<u64>, InvalidHttpTime>)
    ensures
        match (r, http_time(crate::update::view_text(s))) {
            (Ok(a), Ok(b)) => a == b,
            (Err(_), Err(_)) => true,
            _ => false,
        },
{
    match s {
        Option::None => Ok(Option::None),
        Option::Some(t) => match parse_rfc2822(t.as_str()) {
            Option::Some(secs) => {
                if secs >= 0 {
                    Ok(Option::Some(secs as u64))
                } else {
                    Err(InvalidHttpTime)
                }
            },
            Option::None => Err(InvalidHttpTime),
        },
    }
}

/// The last non-empty segment of `segs`.
pub open spec fn last_nonempty(segs: Seq<Seq<char>>) -> Option<Seq<char>>
    decreases segs.len(),
{
    if segs.len() == 0 {
        Option::None
    } else if segs.last().len() > 0 {
        Option::Some(segs.last())
    } else {
        last_nonempty(segs.drop_last())
    }
}

/// `href` as a URL, or, failing that, as a path on a placeholder host.
pub open spec fn url_or_path(href: Seq<char>) -> Option<UrlView> {
    match parsed_url(href) {
        Option::Some(u) => Option::Some(u),
        Option::None => parsed_url("http://dummy"@ + href),
    }
}

/// The decoded last non-empty path segment of `href`.
pub open spec fn final_segment(href: Seq<char>) -> Option<Seq<char>> {
    match url_or_path(href) {
        Option::None => Option::None,
        Option::Some(u) => match u.segments {
            Option::None => Option::None,
            Option::Some(s) => match last_nonempty(s) {
                Option::None => Option::None,
                Option::Some(x) => Option::Some(percent_decoded(x)),
            },
        },
    }
}

/// The decoded last non-empty path segment of a URL or path.
pub fn final_url_segment(href: &str) -> (r: Option<String>)
    ensures
        match r {
            Option::None => final_segment(href@) is None,
            Option::Some(s) => final_segment(href@) == Option::Some(s@),
        },
{
    let parts = match parse_url(href) {
        Option::Some(p) => p,
        Option::None => {
            let mut full = String::from_str("http://dummy");
            full.append(href);
            match parse_url(full.as_str()) {
                Option::Some(p) => p,
                Option::None => return Option::None,
            }
        },
    };
    let segs = match &parts.segments {
        Option::None => return Option::None,
        Option::Some(s) => s,
    };
    let ghost sv = strings_view(segs@);
    assert(url_or_path(href@) == Option::Some(parts@));
    assert(parts@.segments == Option::Some(sv));
    let mut i: usize = segs.len();
    assert(sv.take(i as int) =~= sv);
    while i > 0
        invariant
            i <= segs@.len(),
            sv == strings_view(segs@),
            url_or_path(href@) == Option::Some(parts@),
            parts@.segments == Option::Some(sv),
            last_nonempty(sv) == last_nonempty(sv.take(i as int)),
        decreases i,
    {
        let seg = &segs[i - 1];
        assert(sv.take(i as int).last() == seg@);
        assert(sv.take(i as int).drop_last() =~= sv.take(i - 1));
        if seg.unicode_len() > 0 {
            return Option::Some(percent_decode_lossy(seg.as_str()));
        }
        i = i - 1;
    }
    Option::None
}

/// Pattern of links to a shared folder or file on sciebo.
pub const SCIEBO_LINK_PATTERN: &'static str = r#"https:\/\/[a-zA-Z0-9-]+\.sciebo\.de\/s\/[a-zA-Z0-9-]+"#;

/// A share: its link, the WebDAV root that serves it, and the share token
/// that acts as user name there.
#[derive(Debug, Clone)]
pub struct ShareLink {
    pub share_url: String,
    pub webdav_url: String,
    pub username: String,
}

/// The WebDAV root of a share host.
pub open spec fn webdav_root(host: Seq<char>) -> Seq<char> {
    "https://"@ + host + "/public.php/webdav/"@
}

/// The share, if any, behind the link text `m`: it must parse with a host
/// and end in a token.
pub open spec fn share_of(m: Seq<char>) -> Option<(Seq<char>, Seq<char>, Seq<char>)> {
    match parsed_url(m) {
        Option::None => Option::None,
        Option::Some(u) => match (u.host, final_segment(u.href)) {
            (Option::Some(h), Option::Some(user)) => Option::Some((u.href, webdav_root(h), user)),
            _ => Option::None,
        },
    }
}

/// The shares behind the link texts `ms`, in order.
pub open spec fn shares_of(ms: Seq<Seq<char>>) -> Seq<(Seq<char>, Seq<char>, Seq<char>)>
    decreases ms.len(),
{
    if ms.len() == 0 {
        Seq::empty()
    } else {
        match share_of(ms[0]) {
            Option::None => shares_of(ms.drop_first()),
            Option::Some(s) => seq![s] + shares_of(ms.drop_first()),
        }
    }
}

/// The model of a list of shares.
pub open spec fn shares_view(v: Seq<ShareLink>) -> Seq<(Seq<char>, Seq<char>, Seq<char>)> {
    v.map_values(|s: ShareLink| (s.share_url@, s.webdav_url@, s.username@))
}

/// The shares linked from `text`, in order.
pub fn extract_sciebo_links(text: &str) -> (r: Result<Vec<ShareLink>, ExtractError>)
    ensures
        r is Err <==> !regex_valid(SCIEBO_LINK_PATTERN@),
        r matches Ok(v) ==> shares_view(v@) == shares_of(
            regex_match_texts(SCIEBO_LINK_PATTERN@, text@),
        ),
{
    let matches = match regex_find_all(SCIEBO_LINK_PATTERN, text) {
        Option::None => return Err(ExtractError::InvalidPattern),
        Option::Some(m) => m,
    };
    let ghost ms = strings_view(matches@);
    let mut out: Vec<ShareLink> = Vec::new();
    let mut i: usize = 0;
    assert(ms.skip(0) =~= ms);
    while i < matches.len()
        invariant
            i <= matches@.len(),
            ms == strings_view(matches@),
            ms == regex_match_texts(SCIEBO_LINK_PATTERN@, text@),
            regex_valid(SCIEBO_LINK_PATTERN@),
            shares_of(ms) == shares_view(out@) + shares_of(ms.skip(i as int)),
        decreases matches@.len() - i,
    {
        let m = &matches[i];
        assert(ms.skip(i as int)[0] == m@);
        assert(ms.skip(i as int).drop_first() =~= ms.skip(i + 1));
        let share = match parse_url(m.as_str()) {
            Option::None => Option::None,
            Option::Some(u) => match (&u.host, final_url_segment(u.href.as_str())) {
                (Option::Some(h), Option::Some(user)) => {
                    let mut root = String::from_str("https://");
                    root.append(h.as_str());
                    root.append("/public.php/webdav/");
                    Option::Some(ShareLink { share_url: u.href.clone(), webdav_url: root, username: user })
                },
                _ => Option::None,
            },
        };
        match share {
            Option::None => {},
            Option::Some(s) => {
                let ghost before = out@;
                out.push(s);
                assert(shares_view(out@) =~= shares_view(before).push(
                    (s.share_url@, s.webdav_url@, s.username@),
                ));
                assert(shares_view(before) + (seq![(s.share_url@, s.webdav_url@, s.username@)]
                    + shares_of(ms.skip(i + 1))) =~= shares_view(out@) + shares_of(ms.skip(i + 1)));
            },
        }
        i = i + 1;
    }
    assert(ms.skip(i as int) =~= Seq::<Seq<char>>::empty());
    assert(shares_view(out@) + Seq::<(Seq<char>, Seq<char>, Seq<char>)>::empty() =~= shares_view(out@));
    Ok(out)
}

/// `s` without its trailing slashes.
pub open spec fn trim_slashes(s: Seq<char>) -> Seq<char>
    decreases s.len(),
{
    if s.len() > 0 && s.last() == '/' {
        trim_slashes(s.drop_last())
    } else {
        s
    }
}

/// Length of `cs` without its trailing slashes.
fn trimmed_len(cs: &Vec<char>) -> (r: usize)
    ensures
        r <= cs@.len(),
        trim_slashes(cs@) == cs@.take(r as int),
{
    let mut k: usize = cs.len();
    assert(cs@.take(k as int) =~= cs@);
    while k > 0 && cs[k - 1] == '/'
        invariant
            k <= cs@.len(),
            trim_slashes(cs@) == trim_slashes(cs@.take(k as int)),
        decreases k,
    {
        assert(cs@.take(k as int).drop_last() =~= cs@.take(k - 1));
        k = k - 1;
    }
    k
}

/// Whether two paths are equal once trailing slashes are removed.
fn same_trimmed(a: &str, b: &str) -> (r: bool)
    ensures
        r == (trim_slashes(a@) == trim_slashes(b@)),
{
    let ca = chars_of(a);
    let cb = chars_of(b);
    let la = trimmed_len(&ca);
    let lb = trimmed_len(&cb);
    if la != lb {
        assert(trim_slashes(a@).len() != trim_slashes(b@).len());
        return false;
    }
    let mut i: usize = 0;
    while i < la
        invariant
            la == lb,
            la <= ca@.len(),
            lb <= cb@.len(),
            ca@ == a@,
            cb@ == b@,
            trim_slashes(a@) == ca@.take(la as int),
            trim_slashes(b@) == cb@.take(lb as int),
            i <= la,
            forall|j: int| 0 <= j < i ==> ca@[j] == cb@[j],
        decreases la - i,
    {
        if ca[i] != cb[i] {
            assert(ca@.take(la as int)[i as int] != cb@.take(lb as int)[i as int]);
            return false;
        }
        i = i + 1;
    }
    assert(ca@.take(la as int) =~= cb@.take(lb as int));
    true
}

/// One entry of a WebDAV listing, as the server sent it.
#[derive(Debug, Clone)]
pub struct DavEntry {
    pub href: String,
    /// The status line of the entry's properties.
    pub status: String,
    pub last_modified: Option<u64>,
}

/// A folder to recurse into, or a file to fetch, with the local name.
#[derive(Debug, Clone)]
pub enum DavItem {
    Folder { href: String, name: String },
    File { href: String, name: String, last_modified: Option<u64> },
}

/// The mathematical model of a `DavItem`.
pub ghost enum DavItemView {
    Folder { href: Seq<char>, name: Seq<char> },
    File { href: Seq<char>, name: Seq<char>, last_modified: Option<u64> },
}

impl View for DavItem {
    type V = DavItemView;

    open spec fn view(&self) -> DavItemView {
        match self {
            DavItem::Folder { href, name } => DavItemView::Folder { href: href@, name: name@ },
            DavItem::File { href, name, last_modified } => DavItemView::File {
                href: href@,
                name: name@,
                last_modified: *last_modified,
            },
        }
    }
}

/// What to do with a listing.
#[derive(Debug)]
pub enum DavPlan {
    /// Nothing is listed.
    Nothing,
    /// The share is a single file: fetch it through its share link.
    SingleShare { last_modified: Option<u64> },
    /// Fetch these files and recurse into these folders.
    Items(Vec<DavItem>),
}

/// The local name of an entry: its last path segment, else `.`.
pub open spec fn entry_name(href: Seq<char>) -> Seq<char> {
    match final_segment(href) {
        Option::Some(n) => n,
        Option::None => "."@,
    }
}

/// The items of the entries `es` that the server delivered (status `200
/// OK`), in order: a folder where the reference ends in `/`, else a file.
pub open spec fn dav_items(es: Seq<DavEntry>) -> Seq<DavItemView>
    decreases es.len(),
{
    if es.len() == 0 {
        Seq::empty()
    } else {
        let e = es[0];
        let rest = dav_items(es.drop_first());
        if !contains_seq(e.status@, "200 OK"@) {
            rest
        } else if e.href@.len() > 0 && e.href@.last() == '/' {
            seq![DavItemView::Folder { href: e.href@, name: entry_name(e.href@) }] + rest
        } else {
            seq![
                DavItemView::File {
                    href: e.href@,
                    name: entry_name(e.href@),
                    last_modified: e.last_modified,
                },
            ] + rest
        }
    }
}

/// The models of a list of items.
pub open spec fn items_view(v: Seq<DavItem>) -> Seq<DavItemView> {
    v.map_values(|i: DavItem| i@)
}

/// The local name of an entry (see `entry_name`).
fn local_name(href: &str) -> (r: String)
    ensures
        r@ == entry_name(href@),
{
    match final_url_segment(href) {
        Option::Some(n) => n,
        Option::None => String::from_str("."),
    }
}

/// The items of `entries[from..]` (see `dav_items`).
fn items_from(entries: &Vec<DavEntry>, from: usize) -> (r: Vec<DavItem>)
    requires
        from <= entries@.len(),
    ensures
        items_view(r@) == dav_items(entries@.skip(from as int)),
{
    let ok_text = chars_of("200 OK");
    let mut out: Vec<DavItem> = Vec::new();
    let mut i: usize = from;
    let ghost es = entries@.skip(from as int);
    while i < entries.len()
        invariant
            from <= i <= entries@.len(),
            ok_text@ == "200 OK"@,
            es == entries@.skip(from as int),
            dav_items(es) == items_view(out@) + dav_items(entries@.skip(i as int)),
        decreases entries@.len() - i,
    {
        let e = &entries[i];
        assert(entries@.skip(i as int)[0] == *e);
        assert(entries@.skip(i as int).drop_first() =~= entries@.skip(i + 1));
        let ghost rest = dav_items(entries@.skip(i + 1));
        let ghost before = out@;
        let status = chars_of(e.status.as_str());
        if contains_chars(&status, &ok_text) {
            let href = chars_of(e.href.as_str());
            let item = if href.len() > 0 && href[href.len() - 1] == '/' {
                DavItem::Folder { href: e.href.clone(), name: local_name(e.href.as_str()) }
            } else {
                DavItem::File {
                    href: e.href.clone(),
                    name: local_name(e.href.as_str()),
                    last_modified: e.last_modified,
                }
            };
            out.push(item);
            assert(items_view(out@) =~= items_view(before).push(item@));
            assert(items_view(before) + (seq![item@] + rest) =~= items_view(out@) + rest);
        }
        i = i + 1;
    }
    assert(entries@.skip(i as int) =~= Seq::<DavEntry>::empty());
    assert(items_view(out@) + Seq::<DavItemView>::empty() =~= items_view(out@));
    out
}

/// The plan for a listing of `request_path`: an empty listing asks for
/// nothing; a first entry that is the requested path itself is left out,
/// and where it is the only one and the listing came from a share link, the
/// share is a single file.
pub fn webdav_plan(request_path: &str, entries: &Vec<DavEntry>, from_share: bool) -> (r: DavPlan)
    ensures
        entries@.len() == 0 ==> r is Nothing,
        entries@.len() > 0 ==> if trim_slashes(entries@[0].href@) == trim_slashes(request_path@) {
            if entries@.len() == 1 && from_share {
                r == DavPlan::SingleShare { last_modified: entries@[0].last_modified }
            } else {
                r matches DavPlan::Items(v) && items_view(v@) == dav_items(entries@.skip(1))
            }
        } else {
            r matches DavPlan::Items(v) && items_view(v@) == dav_items(entries@)
        },
{
    if entries.len() == 0 {
        return DavPlan::Nothing;
    }
    if same_trimmed(entries[0].href.as_str(), request_path) {
        if entries.len() == 1 && from_share {
            DavPlan::SingleShare { last_modified: entries[0].last_modified }
        } else {
            DavPlan::Items(items_from(entries, 1))
        }
    } else {
        let r = items_from(entries, 0);
        assert(entries@.skip(0) =~= entries@);
        DavPlan::Items(r)
    }
}

/// Pattern of the UTF-8 file name parameter of a `Content-Disposition`
/// header, up to its closing `;`.
pub const DISPOSITION_PATTERN: &'static str = r#"filename\*=UTF-8''.*;"#;

/// The file name in a `Content-Disposition` value: the first match of the
/// pattern without its 17-character lead and closing `;`.
pub open spec fn disposition_name(header: Seq<char>) -> Option<Seq<char>> {
    let ms = regex_match_texts(DISPOSITION_PATTERN@, header);
    if !regex_valid(DISPOSITION_PATTERN@) || ms.len() == 0 || ms[0].len() < 18 {
        Option::None
    } else {
        Option::Some(ms[0].subrange(17, ms[0].len() - 1))
    }
}

/// The file name a server gives in a `Content-Disposition` value.
pub fn filename_from_content_disposition(header: &str) -> (r: Option<String>)
    ensures
        match r {
            Option::None => disposition_name(header@) is None,
            Option::Some(n) => disposition_name(header@) == Option::Some(n@),
        },
{
    let ms = match regex_find_all(DISPOSITION_PATTERN, header) {
        Option::None => return Option::None,
        Option::Some(ms) => ms,
    };
    if ms.len() == 0 {
        return Option::None;
    }
    assert(strings_view(ms@)[0] == ms@[0]@);
    let cs = chars_of(ms[0].as_str());
    if cs.len() < 18 {
        return Option::None;
    }
    let name = string_from_chars(cs.as_slice().split_at(cs.len() - 1).0.split_at(17).1);
    assert(name@ =~= cs@.subrange(17, cs@.len() - 1));
    Option::Some(name)
}

} // verus!
