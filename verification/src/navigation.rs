//! Which addresses the window shows, and which are handed to the browser.

use crate::text::same_text;
use vstd::prelude::*;

verus! {

/// The parts of an address that decide where it is opened.
#[derive(Debug)]
pub struct Url {
    /// Without the colon.
    pub scheme: String,
    pub host: Option<String>,
}

/// What becomes of a link.
#[derive(Debug, Clone, Copy, PartialEq, Eq, Structural)]
pub enum Navigation {
    /// The window follows it.
    Follow,
    /// The window stays on the app, and the reader's browser opens it.
    OpenInBrowser,
    /// The window stays on the app, and nothing opens it.
    Refuse,
}

/// The scheme and the host of an address, or `None` where the text is no address.
pub uninterp spec fn url_parts(text: Seq<char>) -> Option<(Seq<char>, Option<Seq<char>>)>;

/// An optional piece of text, as characters.
pub open spec fn optional_text(text: Option<String>) -> Option<Seq<char>> {
    match text {
        Some(text) => Some(text@),
        None => None,
    }
}

impl View for Url {
    type V = (Seq<char>, Option<Seq<char>>);

    open spec fn view(&self) -> (Seq<char>, Option<Seq<char>>) {
        (self.scheme@, optional_text(self.host))
    }
}

/// Whether a scheme is that of a web site.
pub open spec fn is_web(scheme: Seq<char>) -> bool {
    scheme == "http"@ || scheme == "https"@
}

/// Whether an address, given by its scheme and host, is the app itself.
pub open spec fn internal(url: (Seq<char>, Option<Seq<char>>)) -> bool {
    let (scheme, host) = url;
    ||| scheme == "tauri"@
    ||| scheme == "asset"@
    ||| is_web(scheme) && (host == Some("localhost"@) || host == Some("tauri.localhost"@))
}

/// What becomes of a link to an address, given by its scheme and host.
pub open spec fn navigation(url: (Seq<char>, Option<Seq<char>>)) -> Navigation {
    if internal(url) {
        Navigation::Follow
    } else {
        Navigation::OpenInBrowser
    }
}

/// [`reqwest::Url::parse`], with what [`reqwest::Url::scheme`] and [`reqwest::Url::host_str`] say
/// of its result: the parts of the address, by the text alone.
#[verifier::external_body]
fn parse_url(text: &str) -> (r: Option<Url>)
    ensures
        r is Some <==> url_parts(text@) is Some,
        r matches Some(url) ==> url_parts(text@) == Some(url@),
{
    let url = reqwest::Url::parse(text).ok()?;
    Some(Url {
        scheme: url.scheme().to_string(),
        host: url.host_str().map(|host| host.to_string()),
    })
}

impl Url {
    /// The address that `text` writes, where it writes one.
    pub fn parse(text: &str) -> (r: Option<Url>)
        ensures
            match r {
                Some(url) => url_parts(text@) == Some(url@),
                None => url_parts(text@) is None,
            },
    {
        parse_url(text)
    }

    /// Whether the host is `name`, all of it.
    fn has_host(&self, name: &str) -> (r: bool)
        ensures
            r == (optional_text(self.host) == Some(name@)),
    {
        match &self.host {
            Some(host) => same_text(host.as_str(), name),
            None => false,
        }
    }

    /// Whether the scheme is that of a web site.
    fn is_web(&self) -> (r: bool)
        ensures
            r == is_web(self.scheme@),
    {
        same_text(self.scheme.as_str(), "http") || same_text(self.scheme.as_str(), "https")
    }
}

/// Whether a navigation is the app itself rather than somebody's link.
///
/// The bundled interface is served from `tauri://localhost`, and on Windows from
/// `http://tauri.localhost`. Following anything else in this window would replace the app with a
/// web page and leave no way back, because there is no address bar and no back button.
pub fn is_internal(url: &Url) -> (r: bool)
    ensures
        r == internal(url@),
{
    if same_text(url.scheme.as_str(), "tauri") || same_text(url.scheme.as_str(), "asset") {
        // The custom protocols the bundle is served over.
        return true;
    }
    // Only the loopback names Tauri itself serves on, never a real site.
    url.is_web() && (url.has_host("localhost") || url.has_host("tauri.localhost"))
}

/// What becomes of a link to `url`: anything that is not the app itself opens in the reader's own
/// browser, whatever its scheme.
pub fn decide(url: &Url) -> (r: Navigation)
    ensures
        r == navigation(url@),
{
    if is_internal(url) {
        Navigation::Follow
    } else {
        Navigation::OpenInBrowser
    }
}

/// What becomes of a link to the address that `text` writes.
///
/// Somebody's link is handed to their browser, where it has an address bar and a back button, and
/// this window is left on the app. What is no address is left alone.
pub fn on_navigation(text: &str) -> (r: Navigation)
    ensures
        r == match url_parts(text@) {
            Some(url) => navigation(url),
            None => Navigation::Refuse,
        },
{
    match Url::parse(text) {
        Some(url) => decide(&url),
        None => Navigation::Refuse,
    }
}

/// A web address is the app only under a host that is, all of it, a name the app is served on. A
/// host that merely ends or begins in such a name is a different host, unless it is the other one.
pub proof fn lookalike_hosts_are_not_the_app(
    scheme: Seq<char>,
    before: Seq<char>,
    name: Seq<char>,
    after: Seq<char>,
)
    requires
        is_web(scheme),
        name == "localhost"@ || name == "tauri.localhost"@,
        before + name + after != "localhost"@,
        before + name + after != "tauri.localhost"@,
    ensures
        !internal((scheme, Some(before + name + after))),
{
    reveal_strlit("http");
    reveal_strlit("https");
    reveal_strlit("tauri");
    reveal_strlit("asset");
    assert(scheme[0] == 'h');
}

/// The window is never led away from the app: what it follows is one of the app's own addresses,
/// and every other address goes to the browser. None is refused.
pub proof fn only_the_app_is_followed(url: (Seq<char>, Option<Seq<char>>))
    ensures
        navigation(url) == Navigation::Follow <==> internal(url),
        navigation(url) == Navigation::Follow <==> {
            ||| url.0 == "tauri"@
            ||| url.0 == "asset"@
            ||| (url.0 == "http"@ || url.0 == "https"@) && (url.1 == Some("localhost"@) || url.1
                == Some("tauri.localhost"@))
        },
        navigation(url) == Navigation::OpenInBrowser <==> !internal(url),
        navigation(url) == Navigation::OpenInBrowser <==> navigation(url) != Navigation::Follow,
        navigation(url) != Navigation::Refuse,
        is_web(url.0) && url.1 != Some("localhost"@) && url.1 != Some("tauri.localhost"@)
            ==> navigation(url) == Navigation::OpenInBrowser,
        url.0 == "mailto"@ ==> navigation(url) == Navigation::OpenInBrowser,
{
    reveal_strlit("http");
    reveal_strlit("https");
    reveal_strlit("mailto");
    reveal_strlit("tauri");
    reveal_strlit("asset");
    if is_web(url.0) {
        assert(url.0[0] == 'h');
    }
    if url.0 == "mailto"@ {
        assert(url.0[0] == 'm');
    }
    assert("tauri"@[0] == 't');
    assert("asset"@[0] == 'a');
}

/// An address is judged by all of its scheme and all of its host: it is the app under the bundle's
/// own protocols, whatever the host, and over the web on the two names that the bundle is served
/// on. Under any other scheme, or on any other host, or without one, it is somebody's link.
pub proof fn the_app_is_known_by_scheme_and_host(url: Url)
    ensures
        internal(url@) == (navigation(url@) == Navigation::Follow),
        internal(url@) <==> {
            ||| url.scheme@ == "tauri"@
            ||| url.scheme@ == "asset"@
            ||| (url.scheme@ == "http"@ || url.scheme@ == "https"@) && (
            url.host matches Some(host) && (host@ == "localhost"@ || host@ == "tauri.localhost"@))
        },
        url@.0 == url.scheme@,
        url@.1 is Some <==> url.host is Some,
        url.host matches Some(host) ==> url@.1 == Some(host@),
{
}

} // verus!
