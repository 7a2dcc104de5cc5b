use scalar_desktop::navigation::{decide, is_internal, on_navigation, Navigation, Url};

fn url(text: &str) -> Url {
    Url::parse(text).expect("test url should parse")
}

#[test]
fn keeps_the_bundled_app_in_the_window() {
    assert!(is_internal(&url("tauri://localhost/today")));
    assert!(is_internal(&url("http://tauri.localhost/ask")));
    assert!(is_internal(&url("asset://localhost/icon.png")));
}

#[test]
fn sends_real_sites_to_the_browser() {
    assert!(!is_internal(&url("https://github.com/scalar-app")));
    assert!(!is_internal(&url("https://mail.google.com/mail/u/0")));
    assert!(!is_internal(&url("mailto:someone@example.com")));
}

/// A host that merely ends in the trusted name is a different host, and treating it as
/// internal would let a link navigate the app away to a site somebody else controls.
#[test]
fn does_not_confuse_a_lookalike_host() {
    assert!(!is_internal(&url("https://tauri.localhost.example.com/")));
    assert!(!is_internal(&url("https://notlocalhost/")));
    assert!(!is_internal(&url("https://evil.com/?x=tauri.localhost")));
}

#[test]
fn an_address_is_read_into_scheme_and_host() {
    let read = url("HTTPS://Mail.Google.COM:8443/mail/u/0");
    assert_eq!(read.scheme, "https");
    assert_eq!(read.host, Some("mail.google.com".to_string()));
    let mail = url("mailto:someone@example.com");
    assert_eq!(mail.scheme, "mailto");
    assert_eq!(mail.host, None);
    assert!(Url::parse("not an address").is_none());
}

#[test]
fn the_app_is_followed_whatever_its_port() {
    assert_eq!(on_navigation("http://localhost:1420/today"), Navigation::Follow);
    assert_eq!(on_navigation("https://localhost/"), Navigation::Follow);
    assert_eq!(on_navigation("tauri://anything/"), Navigation::Follow);
}

#[test]
fn links_to_sites_and_mail_open_in_the_browser() {
    assert_eq!(on_navigation("https://github.com/scalar-app"), Navigation::OpenInBrowser);
    assert_eq!(on_navigation("http://example.com"), Navigation::OpenInBrowser);
    assert_eq!(on_navigation("mailto:someone@example.com"), Navigation::OpenInBrowser);
    assert_eq!(on_navigation("https://localhost.example.com/"), Navigation::OpenInBrowser);
}

#[test]
fn links_of_other_schemes_open_in_the_browser() {
    assert_eq!(on_navigation("ftp://example.com/notes"), Navigation::OpenInBrowser);
    assert_eq!(on_navigation("ftp://localhost/"), Navigation::OpenInBrowser);
    assert_eq!(on_navigation("tel:+15550100"), Navigation::OpenInBrowser);
    assert_eq!(on_navigation("file:///etc/hosts"), Navigation::OpenInBrowser);
}

#[test]
fn what_is_no_address_is_refused() {
    assert_eq!(on_navigation("/today"), Navigation::Refuse);
    assert_eq!(on_navigation(""), Navigation::Refuse);
    assert_eq!(on_navigation("https://"), Navigation::Refuse);
}

#[test]
fn a_web_address_without_a_host_is_not_the_app() {
    let odd = Url { scheme: "http".to_string(), host: None };
    assert!(!is_internal(&odd));
    assert_eq!(decide(&odd), Navigation::OpenInBrowser);
}
