//! Video jobs: recognising video links in page text, extracting a video's
//! identifier from its URL, and telling from a directory listing whether the
//! video has been downloaded already.

use vstd::prelude::*;

use crate::pattern::{regex_find_all, regex_match_texts, regex_valid};
use crate::text::{
    chars_of, contains_chars, contains_seq, ends_with_chars, ends_with_seq, eq_str, strings_view,
};
use crate::url_parts::{parse_url, parsed_url, UrlParts, UrlView};
use crate::update::{UpdateState, UpdateStrategy};

verus! {

/// Pattern of links to a video on YouTube, as they appear in page text.
pub const YOUTUBE_LINK_PATTERN: &'static str = r#"(?:https?:?\/\/)?((?:www|m)\.)?((?:youtube(?:-nocookie)?\.com|youtu.be))(\/(?:[\w\-]+\?v=|embed\/|live\/|v\/)?)([\w\-]+)(\S+)?"#;

/// Where a video goes.
#[derive(Debug, Clone)]
pub enum OutputType {
    /// Into this folder, under a name the downloader chooses.
    Folder(String),
    /// Into exactly this file.
    File(String),
}

impl OutputType {
    /// The folder or file of this destination.
    pub fn path(&self) -> (r: &String)
        ensures
            r@ == (match self {
                OutputType::Folder(p) => p@,
                OutputType::File(p) => p@,
            }),
    {
        match self {
            OutputType::Folder(p) => p,
            OutputType::File(p) => p,
        }
    }
}

/// A queued video download: the source URL and its destination.
#[derive(Debug, Clone)]
pub struct YoutubeVideo {
    pub url: String,
    pub output: OutputType,
}

/// The value of the first query pair whose key is `key`.
pub open spec fn first_query_value(q: Seq<(Seq<char>, Seq<char>)>, key: Seq<char>) -> Option<
    Seq<char>,
>
    decreases q.len(),
{
    if q.len() == 0 {
        Option::None
    } else if q[0].0 == key {
        Option::Some(q[0].1)
    } else {
        first_query_value(q.drop_first(), key)
    }
}

/// Hosts that serve videos under `watch?v=` and `embed/`.
pub open spec fn is_watch_host(h: Seq<char>) -> bool {
    h == "www.youtube.com"@ || h == "youtube.com"@ || h == "www.youtube-nocookie.com"@ || h
        == "youtube-nocookie.com"@
}

/// The video identifier of a URL: the `v` query value on a watch host, else
/// the segment after a leading `embed`; the first path segment on the short
/// host.
pub open spec fn video_id(u: UrlView) -> Option<Seq<char>> {
    match u.host {
        Option::None => Option::None,
        Option::Some(h) => if is_watch_host(h) {
            match first_query_value(u.query, "v"@) {
                Option::Some(v) => Option::Some(v),
                Option::None => match u.segments {
                    Option::Some(s) => if s.len() >= 2 && s[0] == "embed"@ {
                        Option::Some(s[1])
                    } else {
                        Option::None
                    },
                    Option::None => Option::None,
                },
            }
        } else if h == "youtu.be"@ {
            match u.segments {
                Option::Some(s) => if s.len() >= 1 {
                    Option::Some(s[0])
                } else {
                    Option::None
                },
                Option::None => Option::None,
            }
        } else {
            Option::None
        },
    }
}

/// Extracts the video identifier of a URL (see `video_id`).
pub fn get_vid_id(url: &UrlParts) -> (r: Option<String>)
    ensures
        match r {
            Option::None => video_id(url@) is None,
            Option::Some(id) => video_id(url@) == Option::Some(id@),
        },
{
    let host = match &url.host {
        Option::None => return Option::None,
        Option::Some(h) => h,
    };
    if eq_str(host, "www.youtube.com") || eq_str(host, "youtube.com") || eq_str(
        host,
        "www.youtube-nocookie.com",
    ) || eq_str(host, "youtube-nocookie.com") {
        let mut i: usize = 0;
        assert(url@.query.skip(0) =~= url@.query);
        assert(is_watch_host(host@));
        while i < url.query.len()
            invariant
                i <= url.query@.len(),
                url@.host == Option::Some(host@),
                is_watch_host(host@),
                first_query_value(url@.query, "v"@) == first_query_value(
                    url@.query.skip(i as int),
                    "v"@,
                ),
            decreases url.query@.len() - i,
        {
            let pair = &url.query[i];
            assert(url@.query.skip(i as int).drop_first() =~= url@.query.skip(i + 1));
            assert(url@.query.skip(i as int)[0] == url@.query[i as int]);
            assert(url@.query[i as int] == (pair.0@, pair.1@));
            if eq_str(&pair.0, "v") {
                return Option::Some(pair.1.clone());
            }
            i = i + 1;
        }
        assert(url@.query.skip(i as int) =~= Seq::<(Seq<char>, Seq<char>)>::empty());
        match &url.segments {
            Option::Some(s) => {
                if s.len() >= 2 && eq_str(&s[0], "embed") {
                    Option::Some(s[1].clone())
                } else {
                    Option::None
                }
            },
            Option::None => Option::None,
        }
    } else if eq_str(host, "youtu.be") {
        match &url.segments {
            Option::Some(s) => {
                if s.len() >= 1 {
                    Option::Some(s[0].clone())
                } else {
                    Option::None
                }
            },
            Option::None => Option::None,
        }
    } else {
        Option::None
    }
}

/// Marker of an unfinished download left by the downloader.
pub const PARTIAL_SUFFIX: &'static str = ".ytdl";

/// The name `[id]` the downloader puts into the file names of a video.
pub open spec fn id_marker(id: Seq<char>) -> Seq<char> {
    seq!['['] + id + seq![']']
}

/// Whether a listing shows the video as downloaded: some file carries the
/// marker and none that carries it is an unfinished download.
pub open spec fn listing_state(names: Seq<Seq<char>>, marker: Seq<char>) -> UpdateState {
    if exists|i: int|
        0 <= i < names.len() && contains_seq(names[i], marker) && ends_with_seq(
            names[i],
            PARTIAL_SUFFIX@,
        ) {
        UpdateState::Missing
    } else if exists|i: int| 0 <= i < names.len() && contains_seq(names[i], marker) {
        UpdateState::UpToDate
    } else {
        UpdateState::Missing
    }
}

/// The state of video `id` in a directory: `names` lists the file names in
/// it, `None` when the directory does not exist.
pub fn video_state_in_listing(id: &str, names: &Option<Vec<String>>) -> (r: UpdateState)
    ensures
        r == match names {
            Option::None => UpdateState::Missing,
            Option::Some(v) => listing_state(strings_view(v@), id_marker(id@)),
        },
{
    proof {
        reveal_strlit("[");
        reveal_strlit("]");
    }
    let list = match names {
        Option::None => return UpdateState::Missing,
        Option::Some(v) => v,
    };
    let mut marker_text = String::from_str("[");
    marker_text.append(id);
    marker_text.append("]");
    let marker = chars_of(marker_text.as_str());
    assert(marker@ =~= id_marker(id@));
    let partial = chars_of(PARTIAL_SUFFIX);
    let ghost view = strings_view(list@);
    let mut found = false;
    let mut i: usize = 0;
    while i < list.len()
        invariant
            i <= list@.len(),
            *names == Option::Some(*list),
            view == strings_view(list@),
            marker@ == id_marker(id@),
            partial@ == PARTIAL_SUFFIX@,
            forall|j: int|
                0 <= j < i ==> !(contains_seq(view[j], marker@) && ends_with_seq(
                    view[j],
                    PARTIAL_SUFFIX@,
                )),
            found <==> exists|j: int| 0 <= j < i && contains_seq(view[j], marker@),
        decreases list@.len() - i,
    {
        let name = chars_of(list[i].as_str());
        assert(view[i as int] == list@[i as int]@);
        if contains_chars(&name, &marker) {
            if ends_with_chars(&name, &partial) {
                assert(contains_seq(view[i as int], id_marker(id@)) && ends_with_seq(
                    view[i as int],
                    PARTIAL_SUFFIX@,
                ));
                return UpdateState::Missing;
            }
            found = true;
        }
        i = i + 1;
    }
    if found {
        UpdateState::UpToDate
    } else {
        UpdateState::Missing
    }
}

/// Why no existence check could be made for a video.
#[derive(Debug, Clone, Copy, PartialEq, Eq, Structural)]
pub enum VideoIdError {
    /// The URL does not parse, or names no video.
    NoVideoId,
}

impl UpdateStrategy {
    /// The state of the video at `url` in a directory whose file names are
    /// `names` (`None` when the directory does not exist): an error where the URL
    /// names no video, else the state of its identifier.
    pub fn youtube_check_exists(url: &str, names: &Option<Vec<String>>) -> (r: Result<
        UpdateState,
        VideoIdError,
    >)
        ensures
            r is Err <==> (parsed_url(url@) is None || video_id(parsed_url(url@)->0) is None),
            r matches Ok(state) ==> state == match names {
                Option::None => UpdateState::Missing,
                Option::Some(v) => listing_state(
                    strings_view(v@),
                    id_marker(video_id(parsed_url(url@)->0)->0),
                ),
            },
    {
        let parts = match parse_url(url) {
            Option::None => return Err(VideoIdError::NoVideoId),
            Option::Some(p) => p,
        };
        let id = match get_vid_id(&parts) {
            Option::None => return Err(VideoIdError::NoVideoId),
            Option::Some(id) => id,
        };
        Ok(video_state_in_listing(id.as_str(), names))
    }
}

/// The video URLs to queue for the link texts `ms`, in order, and whether a
/// playlist link stopped the scan: a text that does not parse is passed
/// over, and the first playlist ends the scan.
pub open spec fn extract_links(ms: Seq<Seq<char>>) -> (Seq<Seq<char>>, bool)
    decreases ms.len(),
{
    if ms.len() == 0 {
        (Seq::empty(), false)
    } else {
        match parsed_url(ms[0]) {
            Option::None => extract_links(ms.drop_first()),
            Option::Some(u) => if contains_seq(u.path, "playlist"@) {
                (Seq::empty(), true)
            } else {
                let rest = extract_links(ms.drop_first());
                (seq![u.href] + rest.0, rest.1)
            },
        }
    }
}

/// The destination is the folder `folder`.
pub open spec fn into_folder(o: OutputType, folder: Seq<char>) -> bool {
    match o {
        OutputType::Folder(f) => f@ == folder,
        OutputType::File(_) => false,
    }
}

/// The URLs of a list of jobs.
pub open spec fn job_urls(jobs: Seq<YoutubeVideo>) -> Seq<Seq<char>> {
    jobs.map_values(|j: YoutubeVideo| j.url@)
}

/// The videos found in a text, to be queued, and whether a playlist link,
/// which is not supported, ended the scan.
#[derive(Debug)]
pub struct LinkExtraction {
    pub jobs: Vec<YoutubeVideo>,
    pub playlist_skipped: bool,
}

/// Why the links of a text could not be extracted.
#[derive(Debug, Clone, Copy, PartialEq, Eq, Structural)]
pub enum ExtractError {
    /// The link pattern was refused by the regex engine.
    InvalidPattern,
}

/// Finds the video links in `search_space` and makes one job per link, each
/// to be saved into `output_folder`. A playlist link ends the scan; the jobs
/// found before it stand.
pub fn queue_youtube_vidoes_extract(search_space: &str, output_folder: &str) -> (r: Result<
    LinkExtraction,
    ExtractError,
>)
    ensures
        r is Err <==> !regex_valid(YOUTUBE_LINK_PATTERN@),
        r matches Ok(ex) ==> {
            &&& (job_urls(ex.jobs@), ex.playlist_skipped) == extract_links(
                regex_match_texts(YOUTUBE_LINK_PATTERN@, search_space@),
            )
            &&& forall|k: int|
                0 <= k < ex.jobs@.len() ==> into_folder((#[trigger] ex.jobs@[k]).output, output_folder@)
        },
{
    let matches = match regex_find_all(YOUTUBE_LINK_PATTERN, search_space) {
        Option::None => return Err(ExtractError::InvalidPattern),
        Option::Some(m) => m,
    };
    let ghost ms = strings_view(matches@);
    let mut jobs: Vec<YoutubeVideo> = Vec::new();
    let mut i: usize = 0;
    assert(ms.skip(0) =~= ms);
    while i < matches.len()
        invariant
            i <= matches@.len(),
            ms == strings_view(matches@),
            ms == regex_match_texts(YOUTUBE_LINK_PATTERN@, search_space@),
            regex_valid(YOUTUBE_LINK_PATTERN@),
            extract_links(ms) == (
                job_urls(jobs@) + extract_links(ms.skip(i as int)).0,
                extract_links(ms.skip(i as int)).1,
            ),
            forall|k: int|
                0 <= k < jobs@.len() ==> into_folder((#[trigger] jobs@[k]).output, output_folder@),
        decreases matches@.len() - i,
    {
        let text = &matches[i];
        assert(ms.skip(i as int)[0] == text@);
        assert(ms.skip(i as int).drop_first() =~= ms.skip(i + 1));
        match parse_url(text.as_str()) {
            Option::None => {},
            Option::Some(parts) => {
                let path = chars_of(parts.path.as_str());
                let playlist = chars_of("playlist");
                if contains_chars(&path, &playlist) {
                    assert(job_urls(jobs@) + Seq::<Seq<char>>::empty() =~= job_urls(jobs@));
                    return Ok(LinkExtraction { jobs, playlist_skipped: true });
                }
                let ghost before = jobs@;
                jobs.push(
                    YoutubeVideo {
                        url: parts.href,
                        output: OutputType::Folder(String::from_str(output_folder)),
                    },
                );
                assert(job_urls(jobs@) =~= job_urls(before).push(parts@.href));
                let ghost rest = extract_links(ms.skip(i + 1));
                assert(job_urls(before) + (seq![parts@.href] + rest.0) =~= job_urls(jobs@)
                    + rest.0);
            },
        }
        i = i + 1;
    }
    assert(ms.skip(i as int) =~= Seq::<Seq<char>>::empty());
    assert(job_urls(jobs@) + Seq::<Seq<char>>::empty() =~= job_urls(jobs@));
    Ok(LinkExtraction { jobs, playlist_skipped: false })
}

} // verus!
