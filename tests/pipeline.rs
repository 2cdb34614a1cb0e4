use moo_dl::api::modules::{ContentUrl, Label, Module, Quiz};
use moo_dl::api::{assemble_path, config_module_of, CoreCourseGetContentsElement};
use moo_dl::config::{rwth_url, LoginState, Module as ConfigModule, Youtube};
use moo_dl::downloader::{DownloadOptions, FileAction, FileUpdateStrategy, SiteStore};
use moo_dl::errors::{BrowserStartFailedError, LoginFailedError, MissingUserIdError};
use moo_dl::filter::check_filter;
use moo_dl::login::LoginParams;
use moo_dl::renderer::{AcquireStep, PageConversion, RendererState, StartupEvent};
use moo_dl::status::{report_for, video_job_report, Report, StatusCounts, VideoJobOutcome};
use moo_dl::text::join_path;
use moo_dl::update::{UpdateState, UpdateStrategy};
use moo_dl::artifact::ArtifactPath;
use moo_dl::youtube::{
    get_vid_id, queue_youtube_vidoes_extract, video_state_in_listing,
    OutputType, VideoIdError,
};
use moo_dl::url_parts::UrlParts;

fn parts(host: Option<&str>, query: &[(&str, &str)], segments: Option<&[&str]>) -> UrlParts {
    UrlParts {
        href: String::new(),
        host: host.map(|h| h.to_string()),
        path: String::new(),
        query: query.iter().map(|(k, v)| (k.to_string(), v.to_string())).collect(),
        segments: segments.map(|s| s.iter().map(|x| x.to_string()).collect()),
    }
}

#[test]
fn video_id_from_parts() {
    let watch = parts(Some("www.youtube.com"), &[("t", "3"), ("v", "abc")], Some(&["watch"]));
    assert_eq!(get_vid_id(&watch), Some("abc".to_string()));
    let embed = parts(Some("youtube-nocookie.com"), &[], Some(&["embed", "xyz"]));
    assert_eq!(get_vid_id(&embed), Some("xyz".to_string()));
    let short = parts(Some("youtu.be"), &[], Some(&["q1"]));
    assert_eq!(get_vid_id(&short), Some("q1".to_string()));
    let other = parts(Some("example.com"), &[("v", "abc")], Some(&["embed", "x"]));
    assert_eq!(get_vid_id(&other), None);
    let no_host = parts(None, &[("v", "abc")], None);
    assert_eq!(get_vid_id(&no_host), None);
    let bare = parts(Some("youtube.com"), &[], Some(&["embed"]));
    assert_eq!(get_vid_id(&bare), None);
}

#[test]
fn video_listing_states() {
    let names = |v: &[&str]| Some(v.iter().map(|s| s.to_string()).collect::<Vec<_>>());
    assert_eq!(video_state_in_listing("abc", &None), UpdateState::Missing);
    assert_eq!(
        video_state_in_listing("abc", &names(&["Talk [abc].mp4", "other.txt"])),
        UpdateState::UpToDate
    );
    assert_eq!(
        video_state_in_listing("abc", &names(&["Talk [abc].mp4", "Talk [abc].mp4.ytdl"])),
        UpdateState::Missing
    );
    assert_eq!(video_state_in_listing("abc", &names(&["Talk abc.mp4"])), UpdateState::Missing);
    assert_eq!(video_state_in_listing("abc", &names(&[])), UpdateState::Missing);
}

#[test]
fn video_check_parses_the_url() {
    let listing = Some(vec!["Lecture [dQw4w9WgXcQ].webm".to_string()]);
    assert_eq!(
        UpdateStrategy::youtube_check_exists("https://www.youtube.com/watch?v=dQw4w9WgXcQ", &listing),
        Ok(UpdateState::UpToDate)
    );
    assert_eq!(
        UpdateStrategy::youtube_check_exists("https://youtu.be/dQw4w9WgXcQ?t=1", &listing),
        Ok(UpdateState::UpToDate)
    );
    assert_eq!(
        UpdateStrategy::youtube_check_exists("https://youtu.be/other", &listing),
        Ok(UpdateState::Missing)
    );
    assert_eq!(
        UpdateStrategy::youtube_check_exists("https://example.com/watch?v=x", &listing),
        Err(VideoIdError::NoVideoId)
    );
    assert_eq!(UpdateStrategy::youtube_check_exists("not a url", &listing), Err(VideoIdError::NoVideoId));
}

#[test]
fn video_links_are_extracted() {
    let text = "see https://www.youtube.com/watch?v=abc123 and https://youtu.be/xyz789 here";
    let ex = queue_youtube_vidoes_extract(text, "out/videos").unwrap();
    assert!(!ex.playlist_skipped);
    let urls: Vec<&str> = ex.jobs.iter().map(|j| j.url.as_str()).collect();
    assert_eq!(urls, vec!["https://www.youtube.com/watch?v=abc123", "https://youtu.be/xyz789"]);
    for job in &ex.jobs {
        assert_eq!(job.output.path(), "out/videos");
        assert!(matches!(job.output, OutputType::Folder(_)));
    }
    let none = queue_youtube_vidoes_extract("no videos here", "x").unwrap();
    assert!(none.jobs.is_empty());
}

#[test]
fn playlist_link_ends_the_scan() {
    let text = "https://youtu.be/first https://www.youtube.com/playlist?list=PL1 https://youtu.be/late";
    let ex = queue_youtube_vidoes_extract(text, "v").unwrap();
    assert!(ex.playlist_skipped);
    assert_eq!(ex.jobs.len(), 1);
    assert_eq!(ex.jobs[0].url, "https://youtu.be/first");
}

#[test]
fn file_filters() {
    let filters = Some(vec!["\\.mp4$".to_string(), "^draft".to_string()]);
    assert_eq!(check_filter(&filters, "lecture.mp4").unwrap(), true);
    assert_eq!(check_filter(&filters, "draft-notes.pdf").unwrap(), true);
    assert_eq!(check_filter(&filters, "notes.pdf").unwrap(), false);
    assert_eq!(check_filter(&None, "lecture.mp4").unwrap(), false);
    let bad = Some(vec!["(unclosed".to_string(), "x".to_string()]);
    assert_eq!(check_filter(&bad, "x").unwrap_err().pattern, "(unclosed");
    let late_bad = Some(vec!["x".to_string(), "(unclosed".to_string()]);
    assert_eq!(check_filter(&late_bad, "x").unwrap(), true);
}

#[test]
fn drained_queue_counts_every_job() {
    let mut counts = StatusCounts::new();
    let outcomes = [
        VideoJobOutcome::Downloaded,
        VideoJobOutcome::DownloadFailed,
        VideoJobOutcome::Downloaded,
        VideoJobOutcome::Downloaded,
        VideoJobOutcome::DownloadFailed,
    ];
    for o in outcomes {
        counts.register(video_job_report(o));
    }
    assert_eq!(counts.new + counts.err, 5);
    assert_eq!(counts.new, 3);
    assert_eq!(counts.err, 2);
    assert_eq!(counts.unchanged + counts.skipped + counts.updated, 0);
}

#[test]
fn status_counters() {
    let mut c = StatusCounts::new();
    c.register_unchanged();
    c.register_skipped();
    c.register_skipped();
    c.register_updated();
    c.register_new();
    c.register_err();
    assert_eq!((c.unchanged, c.skipped, c.updated, c.new, c.err), (1, 2, 1, 1, 1));
    assert_eq!(report_for(UpdateState::Missing), Report::New);
    assert_eq!(report_for(UpdateState::OutOfDate), Report::Updated);
    assert_eq!(report_for(UpdateState::UpToDate), Report::Unchanged);
    assert_eq!(video_job_report(VideoJobOutcome::Present), Report::Unchanged);
    assert_eq!(video_job_report(VideoJobOutcome::NoDownloader), Report::Skipped);
    assert_eq!(video_job_report(VideoJobOutcome::CheckFailed), Report::Error);
}

#[test]
fn renderer_startup_is_final() {
    let s = RendererState::NotStarted;
    assert_eq!(s.acquire(), AcquireStep::Start);
    assert_eq!(s.after_startup(StartupEvent::Ready), RendererState::Started);
    assert_eq!(s.after_startup(StartupEvent::NoSession), RendererState::Unavailable);
    assert_eq!(s.after_startup(StartupEvent::LaunchFailed), RendererState::Unavailable);
    assert_eq!(s.after_startup(StartupEvent::CookieRejected), RendererState::Unavailable);
    let u = RendererState::Unavailable;
    assert_eq!(u.acquire(), AcquireStep::Skip);
    assert_eq!(u.after_startup(StartupEvent::Ready), RendererState::Unavailable);
    let st = RendererState::Started;
    assert_eq!(st.acquire(), AcquireStep::Use);
    assert_eq!(st.after_startup(StartupEvent::LaunchFailed), RendererState::Started);
    assert!(st.needs_close());
    assert!(!s.needs_close());
}

#[test]
fn page_extension_by_mode() {
    let a = ArtifactPath::new("c".to_string(), "page".to_string(), None);
    let html = PageConversion::SingleFile("/usr/bin/single-file".to_string()).page_artifact(&a);
    assert_eq!(html.final_path(), "c/page.html");
    assert_eq!(PageConversion::SinglePage.page_artifact(&a).final_path(), "c/page.pdf");
    assert_eq!(PageConversion::Standard.extension(), "pdf");
}

#[test]
fn paths_are_assembled() {
    assert_eq!(assemble_path("course", "/sub/dir/", "a.pdf"), "course/sub/dir/a.pdf");
    assert_eq!(assemble_path("course", "/", "a.pdf"), "course/a.pdf");
    assert_eq!(assemble_path("course/", "x", "a.pdf"), "course/x/a.pdf");
    assert_eq!(join_path("a", "/abs"), "/abs");
    assert_eq!(join_path("", "b"), "b");
}

#[test]
fn modules_are_selected_by_kind() {
    let label = Module::Label(Label { name: "l".to_string(), description: "d".to_string() });
    let quiz = Module::Quiz(Quiz { id: 1, name: "q".to_string(), url: "u".to_string(), instance: 2 });
    assert_eq!(config_module_of(&label), Some(ConfigModule::Label));
    assert_eq!(config_module_of(&Module::Unknown), None);
    let section = CoreCourseGetContentsElement {
        id: 1,
        name: "Week 1".to_string(),
        modules: vec![label, Module::Unknown, quiz],
    };
    let sel = section.select_modules(&vec![ConfigModule::Quiz, ConfigModule::Resource]);
    assert_eq!(sel.selected, vec![2]);
    assert_eq!(sel.skipped, 2);
}

#[test]
fn redirect_page_names_the_link() {
    let c = ContentUrl {
        filename: "site".to_string(),
        fileurl: "https://example.org/x".to_string(),
        timemodified: 0,
    };
    let page = c.redirect_page();
    assert!(page.contains("content=\"0;url=https://example.org/x\""));
    assert!(page.contains("<a href=\"https://example.org/x\">click here</a>"));
}

#[test]
fn legacy_downloader_decisions() {
    let o = DownloadOptions::default();
    assert_eq!(o.file_update_strategy, FileUpdateStrategy::Archive);
    assert_eq!(o.site_store, SiteStore::MonoPDF);
    assert!(!o.force_update);
    let a = FileUpdateStrategy::Archive;
    assert_eq!(a.archive_file(None, Some(5)), FileAction::Download);
    assert_eq!(a.archive_file(Some(Some(3)), None), FileAction::Keep);
    assert_eq!(a.archive_file(Some(None), Some(5)), FileAction::Keep);
    assert_eq!(a.archive_file(Some(Some(5)), Some(5)), FileAction::Keep);
    assert_eq!(a.archive_file(Some(Some(4)), Some(5)), FileAction::ArchiveThenDownload);
    assert_eq!(FileUpdateStrategy::Overwrite.archive_file(Some(Some(4)), Some(5)), FileAction::Download);
    assert_eq!(FileUpdateStrategy::Ignore.archive_file(Some(Some(4)), Some(5)), FileAction::Keep);
    assert!(!SiteStore::Disabled.stores_pages());
}

#[test]
fn errors_and_login_values() {
    assert_eq!(MissingUserIdError.description(), "Missing user ID");
    assert_eq!(
        LoginFailedError::new("bad password".to_string()).description(),
        "Login failed with reason: bad password"
    );
    assert_eq!(
        BrowserStartFailedError::new("no chrome".to_string()).description(),
        "Starting Browser failed with reason: no chrome"
    );
    assert_eq!(
        LoginParams::Unset.refusal().unwrap().description(),
        "Login failed with reason: No login params set"
    );
    assert!(LoginParams::LoginComplete.refusal().is_some());
    assert_eq!(rwth_url(), "https://moodle.rwth-aachen.de/");
    assert!(!LoginState::NotChecked.is_resolved());
    assert_eq!(LoginState::Cookie { cookie: "c".to_string() }.cookie(), Some("c".to_string()));
    assert_eq!(Youtube::worker_count(&None), 0);
    let y = Youtube { path: "yt-dlp".to_string(), params: vec![], parallel_downloads: 3 };
    assert_eq!(Youtube::worker_count(&Some(y)), 3);
}
