//! The module and content kinds of the course tree. Each carries what its
//! archival needs.

use vstd::prelude::*;

verus! {

/// A file of a module, with its server modification time.
#[derive(Debug, Clone)]
pub struct ContentFile {
    pub filename: String,
    pub filepath: String,
    pub fileurl: String,
    pub timemodified: u64,
}

/// A link of a module, with its server modification time.
#[derive(Debug, Clone)]
pub struct ContentUrl {
    pub filename: String,
    pub fileurl: String,
    pub timemodified: u64,
}

/// One content entry of a module.
#[derive(Debug, Clone)]
pub enum Content {
    File(ContentFile),
    Url(ContentUrl),
    Unknown,
}

#[derive(Debug, Clone)]
pub struct Resource {
    pub id: u64,
    pub name: String,
    pub contents: Option<Vec<Content>>,
}

#[derive(Debug, Clone)]
pub struct Folder {
    pub id: u64,
    pub name: String,
    pub contents: Option<Vec<Content>>,
}

#[derive(Debug, Clone)]
pub struct Pdfannotator {
    pub contents: Option<Vec<Content>>,
}

#[derive(Debug, Clone)]
pub struct Assign {
    pub id: u64,
    pub instance: u64,
    pub name: String,
    pub url: String,
    pub description: Option<String>,
}

/// A text block placed on the course page.
#[derive(Debug, Clone)]
pub struct Label {
    pub name: String,
    pub description: String,
}

/// A link module.
#[derive(Debug, Clone)]
pub struct ApiUrl {
    pub id: u64,
    pub name: String,
    pub contents: Vec<Content>,
}

/// A link module, as the service names it.
#[derive(Debug, Clone)]
pub struct Url {
    pub id: u64,
    pub name: String,
    pub contents: Vec<Content>,
}

/// When a page was last changed.
#[derive(Debug, Clone, Copy)]
pub struct ContentsInfo {
    pub lastmodified: u64,
}

#[derive(Debug, Clone)]
pub struct Page {
    pub name: String,
    pub url: String,
    pub contents: Option<Vec<Content>>,
    pub contentsinfo: ContentsInfo,
}

#[derive(Debug, Clone)]
pub struct Quiz {
    pub id: u64,
    pub name: String,
    pub url: String,
    pub instance: u64,
}

#[derive(Debug, Clone)]
pub struct Feedback {
    pub id: u64,
    pub name: String,
}

#[derive(Debug, Clone)]
pub struct Glossary {
    pub id: u64,
    pub name: String,
}

/// A programming assignment.
#[derive(Debug, Clone)]
pub struct Vpl {
    pub id: u64,
    pub name: String,
    pub url: String,
}

/// An external tool.
#[derive(Debug, Clone)]
pub struct Lti {
    pub id: u64,
    pub name: String,
    pub modicon: String,
    pub description: Option<String>,
}

#[derive(Debug, Clone)]
pub struct Forum {
    pub id: u64,
    pub name: String,
}

#[derive(Debug, Clone)]
pub struct HsuForum {
    pub id: u64,
    pub name: String,
}

#[derive(Debug, Clone)]
pub struct Grouptool {
    pub name: String,
    pub url: String,
}

/// A module of a course section, by kind.
#[derive(Debug, Clone)]
pub enum Module {
    Resource(Resource),
    Folder(Folder),
    Pdfannotator(Pdfannotator),
    Assign(Assign),
    Label(Label),
    ApiUrl(ApiUrl),
    Page(Page),
    Quiz(Quiz),
    Feedback(Feedback),
    Glossary(Glossary),
    Vpl(Vpl),
    Lti(Lti),
    Forum(Forum),
    HsuForum(HsuForum),
    Grouptool(Grouptool),
    Unknown,
}

/// The HTML document that sends a browser on to `url`.
pub open spec fn redirect_spec(url: Seq<char>) -> Seq<char> {
    "<!DOCTYPE html>\n<html>\n<head>\n<meta http-equiv=\"refresh\" content=\"0;url="@ + url
        + "\">\n<title>Redirecting...</title>\n</head>\n<body>\n<p>If you are not redirected automatically, <a href=\""@
        + url + "\">click here</a>.</p>\n</body>\n</html>"@
}

impl ContentUrl {
    /// The redirecting HTML stored for this link.
    pub fn redirect_page(&self) -> (r: String)
        ensures
            r@ == redirect_spec(self.fileurl@),
    {
        let mut s = String::from_str(
            "<!DOCTYPE html>\n<html>\n<head>\n<meta http-equiv=\"refresh\" content=\"0;url=",
        );
        s.append(self.fileurl.as_str());
        s.append(
            "\">\n<title>Redirecting...</title>\n</head>\n<body>\n<p>If you are not redirected automatically, <a href=\"",
        );
        s.append(self.fileurl.as_str());
        s.append("\">click here</a>.</p>\n</body>\n</html>");
        s
    }
}

} // verus!
