use cookie_store::{CookieStore, RawCookie};
use reqwest::Url;
use scalar_desktop::http::Http;
use scalar_desktop::jar::{load_jar, read_jar, PersistAction, PersistEvent, COOKIE_FILE};

fn jar_with(cookies: &[&str]) -> CookieStore {
    let url = Url::parse("http://localhost:4000/").expect("url should parse");
    let mut store = CookieStore::default();
    for cookie in cookies {
        store.parse(cookie, &url).expect("cookie should parse");
    }
    store
}

const SECOND: i128 = 1_000_000_000;

/// Some time in 2023.
const NOW: i128 = 1_700_000_000 * SECOND;

/// The first instant of 2098, when the cookies here expire.
const YEAR_2098: i128 = 4_039_372_800 * SECOND;

fn written(jar: &CookieStore) -> Vec<u8> {
    written_at(jar, NOW)
}

fn written_at(jar: &CookieStore, now: i128) -> Vec<u8> {
    match Http::persist(PersistEvent::DirectoryReady { created: true, jar, now }) {
        PersistAction::Write { contents } => contents,
        other => panic!("the jar should have been written, not {other:?}"),
    }
}

/// The whole point of the jar: a session outlives the process that created it.
#[test]
fn a_session_survives_being_written_and_read_back() {
    let store = jar_with(&["scalar_session=abc123; Path=/; Expires=Wed, 01 Jan 2098 00:00:00 GMT"]);
    let contents = written(&store);

    let reloaded = load_jar(Some(contents.as_slice()), NOW);
    let cookie = reloaded
        .get("localhost", "/", "scalar_session")
        .expect("the session cookie should come back");
    assert_eq!(cookie.value(), "abc123");
}

/// A jar that will not parse must cost a fresh sign in, never a failure to start.
#[test]
fn a_corrupt_jar_is_treated_as_an_empty_one() {
    assert_eq!(load_jar(Some(b"this is not json".as_slice()), NOW).iter_any().count(), 0);
}

#[test]
fn bytes_that_are_not_text_are_a_corrupt_jar() {
    assert_eq!(load_jar(Some([0xff, 0xfe, 0x00].as_slice()), NOW).iter_any().count(), 0);
    assert_eq!(load_jar(Some(b"".as_slice()), NOW).iter_any().count(), 0);
}

#[test]
fn no_file_is_an_empty_jar() {
    assert_eq!(load_jar(None, NOW).iter_any().count(), 0);
    assert_eq!(COOKIE_FILE, "cookies.json");
}

#[test]
fn an_empty_jar_is_written_as_an_empty_list() {
    assert_eq!(written(&CookieStore::default()), b"[]\n".to_vec());
}

#[test]
fn a_cookie_without_an_expiry_ends_with_the_session() {
    let store = jar_with(&[
        "passing=1; Path=/",
        "kept=a=b; Path=/today; Expires=Wed, 01 Jan 2098 00:00:00 GMT",
    ]);
    let reloaded = load_jar(Some(written(&store).as_slice()), NOW);
    assert_eq!(reloaded.iter_any().count(), 1);
    assert!(reloaded.get_any("localhost", "/", "passing").is_none());
    let kept = reloaded.get_any("localhost", "/today", "kept").expect("it has an expiry");
    assert_eq!(kept.value(), "a=b");
}

#[test]
fn a_max_age_survives_to_the_second() {
    let store = jar_with(&["aged=x; Path=/; Max-Age=86400"]);
    let before = store.get_any("localhost", "/", "aged").expect("stored").expires.clone();
    let reloaded = load_jar(Some(written(&store).as_slice()), NOW);
    let after = reloaded.get_any("localhost", "/", "aged").expect("restored").expires.clone();
    assert_eq!(before, after);
}

#[test]
fn expired_cookies_are_not_read_back() {
    let text = r#"[
  {
    "raw_cookie": "old=1; Path=/; Expires=Thu, 03 Aug 2000 00:38:37 GMT",
    "path": ["/", true],
    "domain": { "HostOnly": "localhost" },
    "expires": { "AtUtc": "2000-08-03T00:38:37Z" }
  },
  {
    "raw_cookie": "new=2; Path=/; Expires=Tue, 03 Aug 2100 00:38:37 GMT",
    "path": ["/", true],
    "domain": { "HostOnly": "localhost" },
    "expires": { "AtUtc": "2100-08-03T00:38:37Z" }
  }
]"#;
    let jar = load_jar(Some(text.as_bytes()), NOW);
    assert_eq!(jar.iter_any().count(), 1);
    assert_eq!(jar.get_any("localhost", "/", "new").expect("unexpired").value(), "2");
}

#[test]
fn a_later_entry_replaces_an_earlier_one() {
    let text = r#"[
  {
    "raw_cookie": "twice=first",
    "path": ["/", true],
    "domain": { "HostOnly": "localhost" },
    "expires": { "AtUtc": "2100-08-03T00:38:37Z" }
  },
  {
    "raw_cookie": "twice=second",
    "path": ["/", true],
    "domain": { "HostOnly": "localhost" },
    "expires": "SessionEnd"
  }
]"#;
    let jar = load_jar(Some(text.as_bytes()), NOW);
    assert_eq!(jar.iter_any().count(), 1);
    assert_eq!(jar.get_any("localhost", "/", "twice").expect("kept").value(), "second");
}

#[test]
fn the_directory_comes_before_the_file() {
    let both = Http::persist(PersistEvent::Requested { locked: true, has_parent: true });
    assert!(matches!(both, PersistAction::CreateDirectory));
}

#[test]
fn nothing_is_written_once_something_has_failed() {
    let jar = jar_with(&["a=b; Path=/; Expires=Wed, 01 Jan 2098 00:00:00 GMT"]);
    let unlocked = Http::persist(PersistEvent::Requested { locked: false, has_parent: true });
    let rootless = Http::persist(PersistEvent::Requested { locked: true, has_parent: false });
    let missing = Http::persist(PersistEvent::DirectoryReady { created: false, jar: &jar, now: NOW });
    assert!(matches!(unlocked, PersistAction::Stop));
    assert!(matches!(rootless, PersistAction::Stop));
    assert!(matches!(missing, PersistAction::Stop));
}

#[test]
fn a_date_at_the_end_of_the_calendar_is_written() {
    let store = jar_with(&["last=1; Path=/; Expires=Fri, 31 Dec 9999 23:59:59 GMT"]);
    let reloaded = load_jar(Some(written(&store).as_slice()), NOW);
    assert_eq!(reloaded.get_any("localhost", "/", "last").expect("kept").value(), "1");
}

#[test]
fn every_cookie_comes_back_under_its_own_key() {
    let store = jar_with(&[
        "a=1; Path=/; Expires=Wed, 01 Jan 2098 00:00:00 GMT",
        "a=2; Path=/mail; Expires=Wed, 01 Jan 2098 00:00:00 GMT",
        "b=3; Path=/; Domain=localhost; Expires=Wed, 01 Jan 2098 00:00:00 GMT",
    ]);
    let reloaded = load_jar(Some(written(&store).as_slice()), NOW);
    assert_eq!(reloaded.iter_any().count(), 3);
    assert_eq!(reloaded.get_any("localhost", "/", "a").expect("a at /").value(), "1");
    assert_eq!(reloaded.get_any("localhost", "/mail", "a").expect("a at /mail").value(), "2");
    assert_eq!(reloaded.get_any("localhost", "/", "b").expect("b").value(), "3");
}

#[test]
fn a_date_that_leaves_the_calendar_stops_the_writing() {
    let url = Url::parse("http://localhost:4000/").expect("url should parse");
    let first = time::OffsetDateTime::from_unix_timestamp(-377_705_116_800).expect("in range");
    let east = time::UtcOffset::from_hms(1, 0, 0).expect("an offset");
    let cookie = |expires: time::OffsetDateTime| {
        RawCookie::build(("a", "b"))
            .path("/")
            .max_age(time::Duration::days(1))
            .expires(expires)
            .build()
    };

    let mut kept = CookieStore::default();
    kept.insert_raw(&cookie(first), &url).expect("cookie should be stored");
    assert_eq!(load_jar(Some(written(&kept).as_slice()), NOW).iter_any().count(), 1);

    let mut lost = CookieStore::default();
    lost.insert_raw(&cookie(first.replace_offset(east)), &url).expect("cookie should be stored");
    let action = Http::persist(PersistEvent::DirectoryReady { created: true, jar: &lost, now: NOW });
    assert!(matches!(action, PersistAction::Stop));
}

#[test]
fn names_and_values_of_many_kinds_come_back() {
    let url = Url::parse("http://localhost:4000/").expect("url should parse");
    let last = time::OffsetDateTime::from_unix_timestamp(4_000_000_000).expect("in range");
    let values = ["", "a b", "\"quoted\"", "a=b==", "100%", "%41", "\u{e9}\u{1f36a}", "a\\b,c", "\u{1}x"];
    for value in values {
        let mut store = CookieStore::default();
        let raw = RawCookie::build(("n \u{e9}%20", value)).path("/").expires(last).build();
        store.insert_raw(&raw, &url).expect("cookie should be stored");
        let reloaded = load_jar(Some(written(&store).as_slice()), NOW);
        let cookie = reloaded.get_any("localhost", "/", "n \u{e9}%20").expect("it is writable");
        assert_eq!(cookie.value(), value);
    }
}

#[test]
fn a_cookie_is_written_until_it_expires() {
    let store = jar_with(&["a=b; Path=/; Expires=Wed, 01 Jan 2098 00:00:00 GMT"]);
    assert_ne!(written_at(&store, YEAR_2098 - 1), b"[]\n".to_vec());
    assert_eq!(written_at(&store, YEAR_2098), b"[]\n".to_vec());
    assert_eq!(written_at(&store, i128::MAX), b"[]\n".to_vec());
}

#[test]
fn a_cookie_is_read_until_it_expires() {
    let store = jar_with(&["a=b; Path=/; Expires=Wed, 01 Jan 2098 00:00:00 GMT"]);
    let contents = written(&store);
    let count = |now: i128| load_jar(Some(contents.as_slice()), now).iter_any().count();
    assert_eq!(count(i128::MIN), 1);
    assert_eq!(count(YEAR_2098 - 1), 1);
    assert_eq!(count(YEAR_2098), 0);
}

#[test]
fn a_file_keeps_a_cookie_to_the_second() {
    let url = Url::parse("http://localhost:4000/").expect("url should parse");
    let ends = time::OffsetDateTime::from_unix_timestamp_nanos(YEAR_2098 + 1).expect("in range");
    let mut store = CookieStore::default();
    let raw = RawCookie::build(("a", "b")).path("/").expires(ends).build();
    store.insert_raw(&raw, &url).expect("cookie should be stored");
    let contents = written_at(&store, YEAR_2098);
    assert_ne!(contents, b"[]\n".to_vec());
    assert_eq!(load_jar(Some(contents.as_slice()), YEAR_2098 - 1).iter_any().count(), 1);
    assert_eq!(load_jar(Some(contents.as_slice()), YEAR_2098).iter_any().count(), 0);
}

#[test]
fn an_expired_entry_does_not_replace_an_earlier_one() {
    let text = r#"[
  {
    "raw_cookie": "twice=first",
    "path": ["/", true],
    "domain": { "HostOnly": "localhost" },
    "expires": { "AtUtc": "2100-08-03T00:38:37Z" }
  },
  {
    "raw_cookie": "twice=second",
    "path": ["/", true],
    "domain": { "HostOnly": "localhost" },
    "expires": { "AtUtc": "2098-01-01T00:00:00Z" }
  }
]"#;
    let value = |now: i128| {
        let jar = load_jar(Some(text.as_bytes()), now);
        assert_eq!(jar.iter_any().count(), 1);
        jar.get_any("localhost", "/", "twice").expect("one is unexpired").value().to_string()
    };
    assert_eq!(value(NOW), "second");
    assert_eq!(value(YEAR_2098), "first");
}

#[test]
fn a_removed_cookie_leaves_the_file() {
    let mut store = jar_with(&[
        "scalar_session=abc123; Path=/; Expires=Wed, 01 Jan 2098 00:00:00 GMT",
        "theme=dark; Path=/; Expires=Wed, 01 Jan 2098 00:00:00 GMT",
    ]);
    assert_eq!(load_jar(Some(written(&store).as_slice()), NOW).iter_any().count(), 2);
    store.remove("localhost", "/", "scalar_session").expect("it is there");
    let reloaded = load_jar(Some(written(&store).as_slice()), NOW);
    assert_eq!(reloaded.iter_any().count(), 1);
    assert_eq!(reloaded.get_any("localhost", "/", "theme").expect("kept").value(), "dark");
}

#[test]
fn writing_leaves_the_jar_as_it_was() {
    let store = jar_with(&[
        "passing=1; Path=/",
        "kept=2; Path=/; Expires=Wed, 01 Jan 2098 00:00:00 GMT",
    ]);
    let first = written(&store);
    assert_eq!(written(&store), first);
    assert_eq!(store.iter_any().count(), 2);
}

#[test]
fn what_guards_a_cookie_comes_back() {
    let url = Url::parse("https://mail.example.com/").expect("url should parse");
    let mut store = CookieStore::default();
    for cookie in [
        "guarded=1; Path=/; Secure; HttpOnly; Expires=Wed, 01 Jan 2098 00:00:00 GMT",
        "open=2; Path=/; Domain=example.com; Expires=Wed, 01 Jan 2098 00:00:00 GMT",
        "across=3; Path=/; SameSite=None; Expires=Wed, 01 Jan 2098 00:00:00 GMT",
        "apart=4; Path=/; Partitioned; Expires=Wed, 01 Jan 2098 00:00:00 GMT",
    ] {
        store.parse(cookie, &url).expect("cookie should parse");
    }
    let reloaded = load_jar(Some(written(&store).as_slice()), NOW);
    assert_eq!(reloaded.iter_any().count(), 4);

    let guarded = reloaded.get_any("mail.example.com", "/", "guarded").expect("guarded");
    assert_eq!(guarded.secure(), Some(true));
    assert_eq!(guarded.http_only(), Some(true));
    assert!(matches!(&guarded.domain, cookie_store::CookieDomain::HostOnly(_)));

    let open = reloaded.get_any("example.com", "/", "open").expect("open");
    assert_eq!(open.secure(), None);
    assert_eq!(open.http_only(), None);
    assert!(matches!(&open.domain, cookie_store::CookieDomain::Suffix(_)));

    let across = reloaded.get_any("mail.example.com", "/", "across").expect("across");
    assert_eq!(across.secure(), Some(true));
    let apart = reloaded.get_any("mail.example.com", "/", "apart").expect("apart");
    assert_eq!(apart.partitioned(), Some(true));
    assert_eq!(apart.secure(), Some(true));
}

#[test]
fn only_the_dates_that_are_written_have_to_fit() {
    let url = Url::parse("http://localhost:4000/").expect("url should parse");
    let first = time::OffsetDateTime::from_unix_timestamp(-377_705_116_800).expect("in range");
    let east = time::UtcOffset::from_hms(1, 0, 0).expect("an offset");
    let mut store = jar_with(&["kept=1; Path=/; Expires=Wed, 01 Jan 2098 00:00:00 GMT"]);
    let raw = RawCookie::build(("unfit", "2"))
        .path("/")
        .max_age(time::Duration::days(1))
        .expires(first.replace_offset(east))
        .build();
    store.insert_raw(&raw, &url).expect("cookie should be stored");

    let early = PersistEvent::DirectoryReady { created: true, jar: &store, now: NOW };
    assert!(matches!(Http::persist(early), PersistAction::Stop));

    let reloaded = load_jar(Some(written_at(&store, YEAR_2098 - 1).as_slice()), NOW);
    assert_eq!(reloaded.iter_any().count(), 1);
    assert_eq!(reloaded.get_any("localhost", "/", "kept").expect("kept").value(), "1");
}

#[test]
fn a_list_is_read_in_its_order_without_what_has_expired() {
    let first = "a=first; Path=/; Expires=Fri, 01 Jan 2100 00:00:00 GMT";
    let second = "a=second; Path=/; Expires=Wed, 01 Jan 2098 00:00:00 GMT";
    let passing = "b=third; Path=/";
    let read = |now: i128| {
        let parsed = vec![jar_with(&[first]), jar_with(&[second]), jar_with(&[passing])];
        let jar = read_jar(Some(parsed), now);
        assert_eq!(jar.iter_any().count(), 2);
        assert_eq!(jar.get_any("localhost", "/", "b").expect("no expiry").value(), "third");
        jar.get_any("localhost", "/", "a").expect("one is unexpired").value().to_string()
    };
    assert_eq!(read(NOW), "second");
    assert_eq!(read(YEAR_2098), "first");
    assert_eq!(read_jar(Some(vec![]), NOW).iter_any().count(), 0);
    assert_eq!(read_jar(None, NOW).iter_any().count(), 0);
}
