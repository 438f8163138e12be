//! The graphics that the site serves, and where each one comes from.
use vstd::prelude::*;

verus! {

/// Where the content of a file of the site comes from.
pub enum FileSource {
    /// These bytes.
    Static(Vec<u8>),
    /// The resource at this URL.
    Http(String),
}

/// A file of the site: the path at which it is served, and where its content comes from.
pub struct FileSpec {
    pub target: String,
    pub source: FileSource,
}

impl FileSpec {
    /// A file served at `target` with content from `source`.
    pub fn new(target: &str, source: FileSource) -> (r: FileSpec)
        ensures
            r.target@ == target@,
            r.source == source,
    {
        FileSpec { target: String::from_str(target), source }
    }
}

/// Whether a file spec is served at `target` with content fetched from `url`.
pub open spec fn fetched_from(spec: FileSpec, target: Seq<char>, url: Seq<char>) -> bool {
    &&& spec.target@ == target
    &&& spec.source matches FileSource::Http(u) && u@ == url
}

/// The graphics of the site: an empty favicon, and four logos fetched from their sources.
pub fn get() -> (r: [FileSpec; 5])
    ensures
        r@[0].target@ == "/favicon.ico"@,
        r@[0].source matches FileSource::Static(bytes) && bytes@.len() == 0,
        fetched_from(r@[1], "/twitter_logo.svg"@,
            "https://upload.wikimedia.org/wikipedia/commons/4/4f/Twitter-logo.svg"@),
        fetched_from(r@[2], "/zulip_logo.svg"@,
            "https://raw.githubusercontent.com/zulip/zulip/main/static/images/logo/zulip-icon-square.svg"@),
        fetched_from(r@[3], "/inverticat.svg"@,
            "https://upload.wikimedia.org/wikipedia/commons/9/91/Octicons-mark-github.svg"@),
        fetched_from(r@[4], "/youtube_logo.svg"@,
            "https://upload.wikimedia.org/wikipedia/commons/0/09/YouTube_full-color_icon_%282017%29.svg"@),
{
    let favicon = FileSpec::new("/favicon.ico", FileSource::Static(Vec::new()));
    let twitter_logo = FileSpec::new(
        "/twitter_logo.svg",
        FileSource::Http(String::from_str(
            "https://upload.wikimedia.org/wikipedia/commons/4/4f/Twitter-logo.svg",
        )),
    );
    let zulip_logo = FileSpec::new(
        "/zulip_logo.svg",
        FileSource::Http(String::from_str(
            "https://raw.githubusercontent.com/zulip/zulip/main/static/images/logo/zulip-icon-square.svg",
        )),
    );
    let inverticat_logo = FileSpec::new(
        "/inverticat.svg",
        FileSource::Http(String::from_str(
            "https://upload.wikimedia.org/wikipedia/commons/9/91/Octicons-mark-github.svg",
        )),
    );
    let youtube_logo = FileSpec::new(
        "/youtube_logo.svg",
        FileSource::Http(String::from_str(
            "https://upload.wikimedia.org/wikipedia/commons/0/09/YouTube_full-color_icon_%282017%29.svg",
        )),
    );
    [favicon, twitter_logo, zulip_logo, inverticat_logo, youtube_logo]
}

} // verus!
