//! The cookie jar: what is in it, what of it is written down, and what a launch reads back.
//!
//! A jar is a [`cookie_store::CookieStore`]. Its cookies are told apart by domain, path and name.
//! Only cookies with an expiry are written, and cookies whose time has come are dropped both when
//! a jar is written and when it is read. Instants are nanoseconds since the Unix epoch.

use crate::http::Http;
use vstd::prelude::*;

verus! {

/// The name of the jar on disk. Kept in the app data directory, beside the window geometry.
pub const COOKIE_FILE: &'static str = "cookies.json";

/// The first instant of the year -9999, and of the calendar that dates are kept in.
pub const CALENDAR_START: i128 = -377_705_116_800_000_000_000;

/// The first instant after the year 9999.
pub const CALENDAR_END: i128 = 253_402_300_800_000_000_000;

/// Nanoseconds in a second.
pub const SECOND: i128 = 1_000_000_000;

/// What tells one cookie in a jar from another.
pub struct CookieKey {
    pub domain: Seq<char>,
    pub path: Seq<char>,
    pub name: Seq<char>,
}

/// When a cookie expires, and whether that time is kept at a zero offset from UTC.
pub struct Expiry {
    pub at: int,
    pub utc: bool,
}

/// A cookie, apart from its key.
pub struct CookieModel {
    pub value: Seq<char>,
    /// Without an expiry a cookie ends with the session that received it.
    pub expires: Option<Expiry>,
    /// Whether it goes to the very host that set it, and to none below.
    pub host_only: bool,
    /// Whether scripts are kept from it.
    pub http_only: bool,
    /// Whether it is, or is not, for secure connections alone, where either was said.
    pub secure: Option<bool>,
    /// Whether it is kept apart by the site it is embedded in.
    pub partitioned: bool,
    /// Whether it goes along with requests from other sites, by `SameSite=None`.
    pub cross_site: bool,
    /// Whether its `Path` and `Domain` attributes hold no semicolon.
    pub plain: bool,
}

/// The outside type that holds a jar's cookies.
#[verifier::external_type_specification]
#[verifier::external_body]
pub struct ExCookieStore(cookie_store::CookieStore);

/// Every cookie in `jar`, expired ones included.
pub uninterp spec fn jar_cookies(jar: cookie_store::CookieStore) -> Map<CookieKey, CookieModel>;

/// The instants that the `Expires` attributes of the cookies in `jar` give, where they have one.
pub uninterp spec fn jar_dates(jar: cookie_store::CookieStore) -> Map<CookieKey, int>;

/// The cookies that `text` lists, in its order, or `None` where it is not a list of cookies.
pub uninterp spec fn json_cookies(text: Seq<u8>) -> Option<Seq<(CookieKey, CookieModel)>>;

/// What an empty jar holds.
pub open spec fn no_cookies() -> Map<CookieKey, CookieModel> {
    Map::empty()
}

/// What a jar with one cookie holds.
pub open spec fn one_cookie(key: CookieKey, cookie: CookieModel) -> Map<CookieKey, CookieModel> {
    Map::empty().insert(key, cookie)
}

/// Whether an instant falls within the calendar.
pub open spec fn in_calendar(at: int) -> bool {
    CALENDAR_START <= at < CALENDAR_END
}

/// Whether every `Expires` attribute in `jar` falls within the calendar once it is moved to UTC.
pub open spec fn dates_fit(jar: cookie_store::CookieStore) -> bool {
    forall|key: CookieKey| #[trigger]
        jar_dates(jar).contains_key(key) ==> in_calendar(jar_dates(jar)[key])
}

/// Whether a cookie is still unexpired at `now`.
pub open spec fn alive(cookie: CookieModel, now: int) -> bool {
    match cookie.expires {
        Some(expiry) => now < expiry.at,
        None => true,
    }
}

/// Whether a cookie is written down at `now`: it outlasts the session, and is unexpired.
pub open spec fn is_lasting(cookie: CookieModel, now: int) -> bool {
    cookie.expires is Some && alive(cookie, now)
}

/// Unicode white space.
pub open spec fn is_space(c: char) -> bool {
    let n = c as u32;
    ||| 9 <= n <= 13
    ||| n == 0x20
    ||| n == 0x85
    ||| n == 0xA0
    ||| n == 0x1680
    ||| 0x2000 <= n <= 0x200A
    ||| n == 0x2028
    ||| n == 0x2029
    ||| n == 0x202F
    ||| n == 0x205F
    ||| n == 0x3000
}

/// Whether text neither begins nor ends in white space.
pub open spec fn is_trimmed(text: Seq<char>) -> bool {
    text.len() > 0 ==> !is_space(text.first()) && !is_space(text.last())
}

/// Whether a cookie can stand in a `Set-Cookie` line and be taken apart again, as every cookie can
/// that came from such a line, and its expiry has a four-digit year.
pub open spec fn is_writable(key: CookieKey, cookie: CookieModel) -> bool {
    &&& key.name.len() > 0
    &&& is_trimmed(key.name)
    &&& !key.name.contains(';')
    &&& !key.name.contains('=')
    &&& is_trimmed(cookie.value)
    &&& !cookie.value.contains(';')
    &&& cookie.plain
    &&& cookie.expires matches Some(expiry) ==> expiry.utc && 0 <= expiry.at < CALENDAR_END
}

/// Whether every one of these cookies can be written down.
pub open spec fn all_writable(cookies: Map<CookieKey, CookieModel>) -> bool {
    forall|key: CookieKey| #[trigger]
        cookies.contains_key(key) ==> is_writable(key, cookies[key])
}

/// Whether every cookie that is written down at `now` can be.
pub open spec fn writable_at(cookies: Map<CookieKey, CookieModel>, now: int) -> bool {
    forall|key: CookieKey| #[trigger]
        cookies.contains_key(key) && is_lasting(cookies[key], now) ==> is_writable(
            key,
            cookies[key],
        )
}

/// Whether every cookie of `jar` that is written down at `now` has an `Expires` attribute within
/// the calendar, if it has one.
pub open spec fn dates_fit_at(jar: cookie_store::CookieStore, now: int) -> bool {
    forall|key: CookieKey| #[trigger]
        jar_dates(jar).contains_key(key) && jar_cookies(jar).contains_key(key) && is_lasting(
            jar_cookies(jar)[key],
            now,
        ) ==> in_calendar(jar_dates(jar)[key])
}

/// An expiry as it is written down: in UTC, to the second.
pub open spec fn to_the_second(expiry: Expiry) -> Expiry {
    Expiry { at: expiry.at - expiry.at % (SECOND as int), utc: true }
}

/// A cookie as it is written down: with its expiry to the second, and for secure connections alone
/// where it has to be, as it has to for other sites unless the contrary was said.
pub open spec fn as_written(cookie: CookieModel) -> CookieModel {
    CookieModel {
        expires: match cookie.expires {
            Some(expiry) => Some(to_the_second(expiry)),
            None => None,
        },
        secure: if cookie.secure == Some(true) || cookie.partitioned || (cookie.secure is None
            && cookie.cross_site) {
            Some(true)
        } else {
            None
        },
        ..cookie
    }
}

/// Whether `entries` has a cookie under `key`.
pub open spec fn lists(entries: Seq<(CookieKey, CookieModel)>, key: CookieKey) -> bool {
    exists|i: int| 0 <= i < entries.len() && (#[trigger] entries[i]).0 == key
}

/// Whether no key occurs twice in `entries`.
pub open spec fn names_each_key_once(entries: Seq<(CookieKey, CookieModel)>) -> bool {
    forall|i: int, j: int|
        0 <= i < j < entries.len() ==> (#[trigger] entries[i]).0 != (#[trigger] entries[j]).0
}

/// Whether `entries` gives every one of `cookies` as it is written down, each once and nothing
/// else, in some order.
pub open spec fn writes_out(
    entries: Seq<(CookieKey, CookieModel)>,
    cookies: Map<CookieKey, CookieModel>,
) -> bool {
    &&& names_each_key_once(entries)
    &&& forall|i: int|
        0 <= i < entries.len() ==> cookies.contains_key((#[trigger] entries[i]).0) && entries[i].1
            == as_written(cookies[entries[i].0])
    &&& forall|key: CookieKey| #[trigger] cookies.contains_key(key) ==> lists(entries, key)
}

/// Those of `cookies` that are unexpired at `now` and, if `lasting`, outlast the session.
pub open spec fn selected(
    cookies: Map<CookieKey, CookieModel>,
    now: int,
    lasting: bool,
) -> Map<CookieKey, CookieModel> {
    Map::new(
        |key: CookieKey|
            cookies.contains_key(key) && alive(cookies[key], now) && (lasting
                ==> cookies[key].expires is Some),
        |key: CookieKey| cookies[key],
    )
}

/// Whether `entries` is what is written at `now` of a jar that holds `cookies`: its unexpired
/// cookies that outlast the session, each once and nothing else.
pub open spec fn written_at(
    cookies: Map<CookieKey, CookieModel>,
    entries: Seq<(CookieKey, CookieModel)>,
    now: int,
) -> bool {
    writes_out(entries, selected(cookies, now, true))
}

/// What a jar holds that reads `entries` at `now`: the unexpired ones, a later one in place of an
/// earlier one with the same key.
pub open spec fn read_at(
    entries: Seq<(CookieKey, CookieModel)>,
    now: int,
) -> Map<CookieKey, CookieModel>
    decreases entries.len(),
{
    if entries.len() == 0 {
        no_cookies()
    } else {
        let earlier = read_at(entries.drop_last(), now);
        let (key, cookie) = entries.last();
        if alive(cookie, now) {
            earlier.insert(key, cookie)
        } else {
            earlier
        }
    }
}

/// What jars hold together, where a cookie in a later one stands in place of an earlier one with
/// the same key.
pub open spec fn joined(jars: Seq<cookie_store::CookieStore>) -> Map<CookieKey, CookieModel>
    decreases jars.len(),
{
    if jars.len() == 0 {
        no_cookies()
    } else {
        joined(jars.drop_last()).union_prefer_right(jar_cookies(jars.last()))
    }
}

/// What jars hold together of cookies that are unexpired at `now`, where one in a later jar stands
/// in place of an earlier one with the same key.
pub open spec fn joined_at(jars: Seq<cookie_store::CookieStore>, now: int) -> Map<
    CookieKey,
    CookieModel,
>
    decreases jars.len(),
{
    if jars.len() == 0 {
        no_cookies()
    } else {
        joined_at(jars.drop_last(), now).union_prefer_right(
            selected(jar_cookies(jars.last()), now, false),
        )
    }
}

/// A cookie in a jar: its key, its expiry and its `Expires` attribute.
struct Listed {
    domain: String,
    path: String,
    name: String,
    expires: Option<i128>,
    date: Option<i128>,
}

impl Listed {
    spec fn key(&self) -> CookieKey {
        CookieKey { domain: self.domain@, path: self.path@, name: self.name@ }
    }

    /// Whether the expiry is that of `cookie`.
    spec fn expires_as(&self, cookie: CookieModel) -> bool {
        match self.expires {
            Some(at) => cookie.expires matches Some(expiry) && expiry.at == at,
            None => cookie.expires is None,
        }
    }
}

/// Whether one of the first `count` in the list is under `key`.
spec fn seen(list: Seq<Listed>, count: int, key: CookieKey) -> bool {
    exists|i: int| 0 <= i < count && (#[trigger] list[i]).key() == key
}

/// Whether `list` has every cookie of `jar` once, and nothing else.
spec fn is_list_of(list: Seq<Listed>, jar: cookie_store::CookieStore) -> bool {
    &&& forall|i: int|
        0 <= i < list.len() ==> {
            let key = (#[trigger] list[i]).key();
            &&& jar_cookies(jar).contains_key(key)
            &&& list[i].expires_as(jar_cookies(jar)[key])
            &&& match list[i].date {
                Some(at) => jar_dates(jar).contains_key(key) && jar_dates(jar)[key] == at,
                None => !jar_dates(jar).contains_key(key),
            }
        }
    &&& forall|i: int, j: int|
        0 <= i < j < list.len() ==> (#[trigger] list[i]).key() != (#[trigger] list[j]).key()
    &&& forall|key: CookieKey| #[trigger]
        jar_cookies(jar).contains_key(key) ==> seen(list, list.len() as int, key)
    &&& forall|key: CookieKey| #[trigger]
        jar_dates(jar).contains_key(key) ==> jar_cookies(jar).contains_key(key)
}

/// What stands in the list is in the jar, under that domain, path and name, and with that expiry and
/// that date.
proof fn lemma_listed(list: Seq<Listed>, jar: cookie_store::CookieStore, i: int)
    requires
        is_list_of(list, jar),
        0 <= i < list.len(),
    ensures
        ({
            let key = CookieKey {
                domain: list[i].domain@,
                path: list[i].path@,
                name: list[i].name@,
            };
            &&& key == list[i].key()
            &&& jar_cookies(jar).contains_key(key)
            &&& match list[i].expires {
                Some(at) => jar_cookies(jar)[key].expires matches Some(expiry) && expiry.at == at,
                None => jar_cookies(jar)[key].expires is None,
            }
            &&& match list[i].date {
                Some(at) => jar_dates(jar).contains_key(key) && jar_dates(jar)[key] == at,
                None => !jar_dates(jar).contains_key(key),
            }
        }),
{
    assert(jar_cookies(jar).contains_key(list[i].key()));
}

/// [`cookie_store::CookieStore::default`]: a jar without cookies.
#[verifier::external_body]
fn empty_jar() -> (jar: cookie_store::CookieStore)
    ensures
        jar_cookies(jar) == no_cookies(),
        dates_fit(jar),
{
    cookie_store::CookieStore::default()
}

/// [`cookie_store::CookieStore::clone`]: a jar with the same cookies.
#[verifier::external_body]
fn copy_jar(jar: &cookie_store::CookieStore) -> (r: cookie_store::CookieStore)
    ensures
        jar_cookies(r) == jar_cookies(*jar),
        jar_dates(r) == jar_dates(*jar),
{
    jar.clone()
}

/// [`cookie_store::CookieStore::iter_any`]: every cookie, expired ones included, in some order. A
/// store keeps a cookie under its own domain, path and name.
#[verifier::external_body]
fn list_cookies(jar: &cookie_store::CookieStore) -> (r: Vec<Listed>)
    ensures
        is_list_of(r@, *jar),
{
    jar.iter_any()
        .map(|cookie| Listed {
            domain: String::from(&cookie.domain),
            path: String::from(&cookie.path),
            name: cookie.name().to_string(),
            expires: match cookie.expires {
                cookie_store::CookieExpiration::AtUtc(at) => Some(at.unix_timestamp_nanos()),
                cookie_store::CookieExpiration::SessionEnd => None,
            },
            date: cookie.expires_datetime().map(|at| at.unix_timestamp_nanos()),
        })
        .collect()
}

/// [`cookie_store::CookieStore::remove`]: takes out the cookie under this key, where there is one.
#[verifier::external_body]
fn remove_cookie(jar: &mut cookie_store::CookieStore, cookie: &Listed)
    ensures
        jar_cookies(*final(jar)) == jar_cookies(*old(jar)).remove(cookie.key()),
        jar_dates(*final(jar)) == jar_dates(*old(jar)).remove(cookie.key()),
{
    jar.remove(&cookie.domain, &cookie.path, &cookie.name);
}

/// [`cookie_store::CookieStore::from_cookies`], on the cookies of all these jars, one jar after
/// another and expired ones included: a later cookie replaces an earlier one with the same key.
#[verifier::external_body]
fn join_jars(jars: &Vec<cookie_store::CookieStore>) -> (r: cookie_store::CookieStore)
    ensures
        jar_cookies(r) == joined(jars@),
        (forall|i: int| 0 <= i < jars@.len() ==> dates_fit(#[trigger] jars@[i])) ==> dates_fit(r),
{
    let cookies = jars.iter().flat_map(|jar| jar.iter_any()).cloned();
    cookie_store::CookieStore::from_cookies(cookies.map(Ok::<_, ()>), true).unwrap_or_default()
}

/// [`serde_json::from_str`], for a list of [`cookie_store::Cookie`]: the cookies that the text
/// lists, in order, each handed out in a jar of its own. It fails exactly where the bytes are not
/// text or the text is not such a list. A date that is read from an `Expires` attribute is in UTC,
/// within the calendar.
///
/// What the list is for a given text is not stated here, but for that which [`json_save`] writes.
#[verifier::external_body]
fn json_load(text: &[u8]) -> (r: Option<Vec<cookie_store::CookieStore>>)
    ensures
        r is Some <==> json_cookies(text@) is Some,
        r matches Some(jars) ==> jars@.len() == json_cookies(text@)->0.len(),
        r matches Some(jars) ==> forall|i: int|
            0 <= i < jars@.len() ==> dates_fit(#[trigger] jars@[i]) && jar_cookies(jars@[i])
                == one_cookie(json_cookies(text@)->0[i].0, json_cookies(text@)->0[i].1),
{
    let text = std::str::from_utf8(text).ok()?;
    let cookies: Vec<cookie_store::Cookie<'static>> = serde_json::from_str(text).ok()?;
    cookies
        .into_iter()
        .map(|cookie| cookie_store::CookieStore::from_cookies([Ok::<_, ()>(cookie)], true).ok())
        .collect()
}

/// [`cookie_store::serde::json::save_incl_expired_and_nonpersistent`] into memory: lists every
/// cookie, each with its expiry cut to the second. The list reads back as written where all of
/// them can stand in a `Set-Cookie` line. Writing to memory does not fail, and every date within
/// the calendar can be written; one that leaves the calendar on its way to UTC cannot.
///
/// The order of the list is not stated, nor what it reads back as where some name, value or
/// attribute holds a separator.
#[verifier::external_body]
fn json_save(jar: &cookie_store::CookieStore) -> (r: Option<Vec<u8>>)
    requires
        dates_fit(*jar),
    ensures
        r is Some,
        r matches Some(text) ==> (all_writable(jar_cookies(*jar)) ==> json_cookies(text@) is Some
            && writes_out(json_cookies(text@)->0, jar_cookies(*jar))),
{
    let mut buffer = Vec::new();
    match cookie_store::serde::json::save_incl_expired_and_nonpersistent(jar, &mut buffer) {
        Ok(()) => Some(buffer),
        Err(_) => None,
    }
}

/// Takes out of `jar` the cookies that have expired by `now` and, if `lasting`, those that end
/// with the session.
fn prune(jar: &mut cookie_store::CookieStore, now: i128, lasting: bool)
    ensures
        jar_cookies(*final(jar)) == selected(jar_cookies(*old(jar)), now as int, lasting),
        forall|key: CookieKey| #[trigger]
            jar_dates(*final(jar)).contains_key(key) <==> jar_dates(*old(jar)).contains_key(key)
                && selected(jar_cookies(*old(jar)), now as int, lasting).contains_key(key),
        forall|key: CookieKey| #[trigger]
            jar_dates(*final(jar)).contains_key(key) ==> jar_dates(*final(jar))[key] == jar_dates(
                *old(jar),
            )[key],
{
    let ghost cookies = jar_cookies(*jar);
    let ghost dates = jar_dates(*jar);
    let ghost wanted = selected(cookies, now as int, lasting);
    let list = list_cookies(jar);
    let mut i: usize = 0;
    while i < list.len()
        invariant
            i <= list@.len(),
            wanted == selected(cookies, now as int, lasting),
            forall|k: int|
                0 <= k < list@.len() ==> cookies.contains_key((#[trigger] list@[k]).key())
                    && list@[k].expires_as(cookies[list@[k].key()]),
            forall|key: CookieKey| #[trigger]
                jar_cookies(*jar).contains_key(key) <==> cookies.contains_key(key) && (
                wanted.contains_key(key) || !seen(list@, i as int, key)),
            forall|key: CookieKey| #[trigger]
                jar_cookies(*jar).contains_key(key) ==> jar_cookies(*jar)[key] == cookies[key],
            forall|key: CookieKey| #[trigger]
                jar_dates(*jar).contains_key(key) <==> dates.contains_key(key) && (
                wanted.contains_key(key) || !seen(list@, i as int, key)),
            forall|key: CookieKey| #[trigger]
                jar_dates(*jar).contains_key(key) ==> jar_dates(*jar)[key] == dates[key],
        decreases list@.len() - i,
    {
        let ghost this = list@[i as int].key();
        proof {
            assert forall|key: CookieKey| #[trigger] seen(list@, i + 1, key) <==> seen(
                list@,
                i as int,
                key,
            ) || key == this by {
                assert(list@[i as int].key() == this);
            }
        }
        let unwanted = match list[i].expires {
            Some(at) => at <= now,
            None => lasting,
        };
        assert(unwanted == !wanted.contains_key(this));
        if unwanted {
            remove_cookie(jar, &list[i]);
        }
        i = i + 1;
    }
    assert(jar_cookies(*jar) =~= wanted);
}

/// Whether every `Expires` attribute in `jar` falls within the calendar once it is moved to UTC.
fn check_dates(jar: &cookie_store::CookieStore) -> (r: bool)
    ensures
        r == dates_fit(*jar),
{
    let list = list_cookies(jar);
    let mut i: usize = 0;
    while i < list.len()
        invariant
            i <= list@.len(),
            is_list_of(list@, *jar),
            forall|k: int|
                0 <= k < i ==> ((#[trigger] list@[k]).date matches Some(at) ==> in_calendar(
                    at as int,
                )),
        decreases list@.len() - i,
    {
        if let Some(at) = list[i].date {
            if at < CALENDAR_START || at >= CALENDAR_END {
                proof {
                    lemma_listed(list@, *jar, i as int);
                }
                return false;
            }
        }
        i = i + 1;
    }
    assert forall|key: CookieKey| #[trigger] jar_dates(*jar).contains_key(key) implies in_calendar(
        jar_dates(*jar)[key],
    ) by {
        assert(seen(list@, list@.len() as int, key));
        let k = choose|k: int| 0 <= k < list@.len() && (#[trigger] list@[k]).key() == key;
        assert(list@[k].date is Some);
    }
    true
}

/// Jars that have been cut down to their unexpired cookies hold together what the jars they were
/// made from hold of unexpired cookies.
proof fn lemma_pruned(
    jars: Seq<cookie_store::CookieStore>,
    pruned: Seq<cookie_store::CookieStore>,
    now: int,
)
    requires
        pruned.len() == jars.len(),
        forall|i: int|
            0 <= i < jars.len() ==> jar_cookies(#[trigger] pruned[i]) == selected(
                jar_cookies(jars[i]),
                now,
                false,
            ),
    ensures
        joined(pruned) == joined_at(jars, now),
    decreases jars.len(),
{
    if jars.len() > 0 {
        lemma_pruned(jars.drop_last(), pruned.drop_last(), now);
        assert(jar_cookies(pruned[jars.len() - 1]) == selected(
            jar_cookies(jars.last()),
            now,
            false,
        ));
    }
}

/// Jars that hold one entry each hold together, of unexpired cookies, what the entries read as.
proof fn lemma_joined_at(
    jars: Seq<cookie_store::CookieStore>,
    entries: Seq<(CookieKey, CookieModel)>,
    now: int,
)
    requires
        jars.len() == entries.len(),
        forall|i: int|
            0 <= i < jars.len() ==> jar_cookies(#[trigger] jars[i]) == one_cookie(
                entries[i].0,
                entries[i].1,
            ),
    ensures
        joined_at(jars, now) == read_at(entries, now),
    decreases jars.len(),
{
    if jars.len() > 0 {
        let last = jars.len() - 1;
        lemma_joined_at(jars.drop_last(), entries.drop_last(), now);
        assert(jar_cookies(jars[last]) == one_cookie(entries[last].0, entries[last].1));
        assert(joined_at(jars, now) =~= read_at(entries, now));
    }
}

/// The jar that a launch starts with, given what its file was read as: the listed cookies, each in
/// a jar of its own and in order, or `None` where there was no list. The unexpired ones are kept, a
/// later one in place of an earlier one with the same key.
pub fn read_jar(parsed: Option<Vec<cookie_store::CookieStore>>, now: i128) -> (jar:
    cookie_store::CookieStore)
    ensures
        match parsed {
            Some(jars) => {
                &&& jar_cookies(jar) == joined_at(jars@, now as int)
                &&& (forall|i: int| 0 <= i < jars@.len() ==> dates_fit(#[trigger] jars@[i]))
                    ==> dates_fit(jar)
            },
            None => jar_cookies(jar) == no_cookies() && dates_fit(jar),
        },
{
    let mut jars = match parsed {
        Some(jars) => jars,
        None => {
            return empty_jar();
        },
    };
    let ghost given = jars@;
    let mut i: usize = 0;
    while i < jars.len()
        invariant
            i <= jars@.len(),
            jars@.len() == given.len(),
            forall|k: int|
                0 <= k < jars@.len() && dates_fit(given[k]) ==> dates_fit(#[trigger] jars@[k]),
            forall|k: int|
                0 <= k < i ==> jar_cookies(#[trigger] jars@[k]) == selected(
                    jar_cookies(given[k]),
                    now as int,
                    false,
                ),
            forall|k: int| i <= k < jars@.len() ==> #[trigger] jars@[k] == given[k],
        decreases jars@.len() - i,
    {
        assert(jars@[i as int] == given[i as int]);
        prune(&mut jars[i], now, false);
        i = i + 1;
    }
    proof {
        lemma_pruned(given, jars@, now as int);
    }
    join_jars(&jars)
}

/// Reads the jar back, or starts an empty one. `now` is what the clock shows.
///
/// `file` is what the jar file holds, or `None` where there is none to be read. A file that will
/// not parse is treated as no file at all. A corrupt jar should cost somebody a fresh sign in,
/// never a start up failure.
pub fn load_jar(file: Option<&[u8]>, now: i128) -> (jar: cookie_store::CookieStore)
    ensures
        match file {
            Some(text) if json_cookies(text@) is Some => jar_cookies(jar) == read_at(
                json_cookies(text@)->0,
                now as int,
            ),
            _ => jar_cookies(jar) == no_cookies(),
        },
        dates_fit(jar),
{
    let parsed = match file {
        Some(text) => json_load(text),
        None => None,
    };
    proof {
        if parsed is Some {
            lemma_joined_at(parsed->0@, json_cookies(file->0@)->0, now as int);
        }
    }
    read_jar(parsed, now)
}

/// What has happened so far in writing the jar out.
pub enum PersistEvent<'a> {
    /// The jar is to be written. Whether it could be locked, and whether its file has a directory.
    Requested { locked: bool, has_parent: bool },
    /// The file's directory was asked for. Whether it is there now, the locked jar, and what the
    /// clock shows.
    DirectoryReady { created: bool, jar: &'a cookie_store::CookieStore, now: i128 },
}

/// What writing the jar out does next.
#[derive(Debug)]
pub enum PersistAction {
    /// Make the file's directory, and those above it.
    CreateDirectory,
    /// Put this in the file, in place of all it held.
    Write { contents: Vec<u8> },
    /// Leave it.
    Stop,
}

impl Http {
    /// One step of writing the jar out. Done after a response that changed it, and again on the
    /// way out: the directory first, then the file, and nothing more once something has failed.
    ///
    /// Failure is deliberately quiet: not being able to save a cookie is a reason to sign in again
    /// next time, not a reason to interrupt somebody mid task. Nothing is saved where one of the
    /// cookies to be written has a date that leaves the calendar in UTC.
    pub fn persist(event: PersistEvent) -> (action: PersistAction)
        ensures
            match event {
                PersistEvent::Requested { locked, has_parent } => if locked && has_parent {
                    action is CreateDirectory
                } else {
                    action is Stop
                },
                PersistEvent::DirectoryReady { created, jar, now } => if created && dates_fit_at(
                    *jar,
                    now as int,
                ) {
                    &&& action is Write
                    &&& writable_at(jar_cookies(*jar), now as int) ==> {
                        &&& json_cookies(action->contents@) is Some
                        &&& written_at(
                            jar_cookies(*jar),
                            json_cookies(action->contents@)->0,
                            now as int,
                        )
                    }
                } else {
                    action is Stop
                },
            },
    {
        match event {
            PersistEvent::Requested { locked, has_parent } => {
                if locked && has_parent {
                    PersistAction::CreateDirectory
                } else {
                    PersistAction::Stop
                }
            },
            PersistEvent::DirectoryReady { created, jar, now } => {
                if !created {
                    return PersistAction::Stop;
                }
                let mut lasting = copy_jar(jar);
                prune(&mut lasting, now, true);
                let fit = check_dates(&lasting);
                proof {
                    let all = jar_cookies(*jar);
                    assert forall|key: CookieKey| #[trigger]
                        jar_dates(*jar).contains_key(key) && all.contains_key(key) && is_lasting(
                            all[key],
                            now as int,
                        ) implies jar_dates(lasting).contains_key(key) by {
                        assert(selected(all, now as int, true).contains_key(key));
                    }
                    if dates_fit_at(*jar, now as int) {
                        assert forall|key: CookieKey| #[trigger]
                            jar_dates(lasting).contains_key(key) implies in_calendar(
                            jar_dates(lasting)[key],
                        ) by {
                            assert(jar_dates(*jar).contains_key(key));
                        }
                    }
                    if writable_at(all, now as int) {
                        assert forall|key: CookieKey| #[trigger]
                            jar_cookies(lasting).contains_key(key) implies is_writable(
                            key,
                            jar_cookies(lasting)[key],
                        ) by {
                            assert(all.contains_key(key));
                        }
                    }
                }
                if !fit {
                    return PersistAction::Stop;
                }
                match json_save(&lasting) {
                    Some(contents) => PersistAction::Write { contents },
                    None => PersistAction::Stop,
                }
            },
        }
    }
}

/// Whether the entry at `i` is the last one under `key` that is unexpired at `now`.
pub open spec fn is_last_unexpired(
    entries: Seq<(CookieKey, CookieModel)>,
    now: int,
    key: CookieKey,
    i: int,
) -> bool {
    &&& 0 <= i < entries.len()
    &&& entries[i].0 == key
    &&& alive(entries[i].1, now)
    &&& forall|j: int| i < j < entries.len() && (#[trigger] entries[j]).0 == key ==> !alive(
        entries[j].1,
        now,
    )
}

/// The last unexpired entry under a key is read.
proof fn lemma_last_is_read(
    entries: Seq<(CookieKey, CookieModel)>,
    now: int,
    key: CookieKey,
    i: int,
)
    requires
        is_last_unexpired(entries, now, key, i),
    ensures
        read_at(entries, now).contains_key(key),
        read_at(entries, now)[key] == entries[i].1,
    decreases entries.len(),
{
    let rest = entries.drop_last();
    if i < entries.len() - 1 {
        assert forall|j: int| i < j < rest.len() && (#[trigger] rest[j]).0 == key implies !alive(
            rest[j].1,
            now,
        ) by {
            assert(entries[j] == rest[j]);
        }
        lemma_last_is_read(rest, now, key, i);
        assert(entries[entries.len() - 1] == entries.last());
    }
}

/// Where there is an unexpired entry under a key, there is a last one.
proof fn lemma_last_exists(
    entries: Seq<(CookieKey, CookieModel)>,
    now: int,
    key: CookieKey,
    i: int,
) -> (last: int)
    requires
        0 <= i < entries.len(),
        entries[i].0 == key,
        alive(entries[i].1, now),
    ensures
        is_last_unexpired(entries, now, key, last),
    decreases entries.len() - i,
{
    if is_last_unexpired(entries, now, key, i) {
        i
    } else {
        let j = choose|j: int|
            i < j < entries.len() && (#[trigger] entries[j]).0 == key && alive(entries[j].1, now);
        lemma_last_exists(entries, now, key, j)
    }
}

/// What is read is some unexpired entry.
proof fn lemma_read_was_listed(
    entries: Seq<(CookieKey, CookieModel)>,
    now: int,
    key: CookieKey,
) -> (i: int)
    requires
        read_at(entries, now).contains_key(key),
    ensures
        0 <= i < entries.len(),
        entries[i].0 == key,
        alive(entries[i].1, now),
    decreases entries.len(),
{
    let (last_key, last_cookie) = entries.last();
    if last_key == key && alive(last_cookie, now) {
        entries.len() - 1
    } else {
        lemma_read_was_listed(entries.drop_last(), now, key)
    }
}

/// A jar that is read has a cookie under a key exactly where some entry under that key is
/// unexpired, and then it is the last such one. So every cookie that is read is unexpired.
pub proof fn last_unexpired_entry_is_read(
    entries: Seq<(CookieKey, CookieModel)>,
    now: int,
    key: CookieKey,
)
    ensures
        read_at(entries, now).contains_key(key) <==> exists|i: int|
            0 <= i < entries.len() && (#[trigger] entries[i]).0 == key && alive(entries[i].1, now),
        forall|i: int| #[trigger]
            is_last_unexpired(entries, now, key, i) ==> read_at(entries, now)[key] == entries[i].1,
        read_at(entries, now).contains_key(key) ==> alive(read_at(entries, now)[key], now),
        read_at(entries, now).contains_key(key) <==> exists|i: int|
            0 <= i < entries.len() && (#[trigger] entries[i]).0 == key && (
            entries[i].1.expires matches Some(expiry) ==> now < expiry.at),
        forall|i: int|
            0 <= i < entries.len() && (#[trigger] entries[i]).0 == key && (
            entries[i].1.expires matches Some(expiry) ==> now < expiry.at) && (forall|j: int|
                i < j < entries.len() && (#[trigger] entries[j]).0 == key ==> (
                entries[j].1.expires matches Some(expiry) && expiry.at <= now)) ==> read_at(
                entries,
                now,
            )[key] == entries[i].1,
{
    if read_at(entries, now).contains_key(key) {
        let i = lemma_read_was_listed(entries, now, key);
        let last = lemma_last_exists(entries, now, key, i);
        lemma_last_is_read(entries, now, key, last);
    }
    assert forall|i: int|
        0 <= i < entries.len() && (#[trigger] entries[i]).0 == key && alive(
            entries[i].1,
            now,
        ) implies read_at(entries, now).contains_key(key) by {
        let last = lemma_last_exists(entries, now, key, i);
        lemma_last_is_read(entries, now, key, last);
    }
    assert forall|i: int| #[trigger] is_last_unexpired(entries, now, key, i) implies read_at(
        entries,
        now,
    )[key] == entries[i].1 by {
        lemma_last_is_read(entries, now, key, i);
    }
    assert forall|i: int|
        0 <= i < entries.len() && (#[trigger] entries[i]).0 == key && (
        entries[i].1.expires matches Some(expiry) ==> now < expiry.at) && (forall|j: int|
            i < j < entries.len() && (#[trigger] entries[j]).0 == key ==> (
            entries[j].1.expires matches Some(expiry) && expiry.at <= now)) implies read_at(
        entries,
        now,
    )[key] == entries[i].1 by {
        assert(is_last_unexpired(entries, now, key, i));
    }
}

/// A session outlives the process that created it. Where a jar that holds `before` is written when
/// the clock shows `written`, and the file is read when it shows `read`, a cookie comes back
/// exactly where it has an expiry that is not reached at the one nor, to the second, at the other;
/// and it comes back under the same domain, path and name, as it was written: with the same value,
/// the same expiry to the second, for the same hosts, as closed to scripts as it was, and for
/// secure connections alone if it was.
pub proof fn session_survives(
    before: Map<CookieKey, CookieModel>,
    entries: Seq<(CookieKey, CookieModel)>,
    written: int,
    read: int,
    key: CookieKey,
)
    requires
        written_at(before, entries, written),
    ensures
        read_at(entries, read).contains_key(key) <==> before.contains_key(key) && is_lasting(
            before[key],
            written,
        ) && alive(as_written(before[key]), read),
        read_at(entries, read).contains_key(key) ==> read_at(entries, read)[key] == as_written(
            before[key],
        ),
        read_at(entries, read).contains_key(key) ==> {
            let after = read_at(entries, read)[key];
            &&& after.value == before[key].value
            &&& after.host_only == before[key].host_only
            &&& after.http_only == before[key].http_only
            &&& before[key].secure == Some(true) ==> after.secure == Some(true)
        },
        read_at(entries, read).contains_key(key) <==> before.contains_key(key) && (
        before[key].expires matches Some(expiry) && written < expiry.at && read < expiry.at
            - expiry.at % 1_000_000_000),
        read_at(entries, read).contains_key(key) ==> {
            let after = read_at(entries, read)[key];
            &&& before[key].expires matches Some(expiry)
            &&& after.expires matches Some(kept)
            &&& kept.at == expiry.at - expiry.at % 1_000_000_000
            &&& kept.utc
            &&& after.partitioned == before[key].partitioned
            &&& after.cross_site == before[key].cross_site
            &&& after.plain == before[key].plain
            &&& after.secure == Some(true) <==> {
                ||| before[key].secure == Some(true)
                ||| before[key].partitioned
                ||| before[key].secure is None && before[key].cross_site
            }
            &&& after.secure != Some(false)
        },
{
    let chosen = selected(before, written, true);
    last_unexpired_entry_is_read(entries, read, key);
    if read_at(entries, read).contains_key(key) {
        let i = choose|i: int|
            0 <= i < entries.len() && (#[trigger] entries[i]).0 == key && alive(entries[i].1, read);
        assert(chosen.contains_key(entries[i].0));
        assert(is_last_unexpired(entries, read, key, i));
    }
    if chosen.contains_key(key) {
        assert(lists(entries, key));
        let i = choose|i: int| 0 <= i < entries.len() && (#[trigger] entries[i]).0 == key;
        assert(entries[i].1 == as_written(chosen[key]));
    }
}

/// Where no cookie expires in between, to the second, what is read back is exactly what the jar
/// held of unexpired cookies with an expiry: none is lost and none is added.
pub proof fn nothing_is_lost_in_between(
    before: Map<CookieKey, CookieModel>,
    entries: Seq<(CookieKey, CookieModel)>,
    written: int,
    read: int,
)
    requires
        written_at(before, entries, written),
        forall|key: CookieKey| #[trigger]
            before.contains_key(key) ==> (before[key].expires matches Some(expiry) ==> (written
                < expiry.at ==> read < expiry.at - expiry.at % 1_000_000_000)),
    ensures
        read_at(entries, read).dom() == selected(before, written, true).dom(),
        forall|key: CookieKey| #[trigger]
            read_at(entries, read).contains_key(key) <==> before.contains_key(key) && (
            before[key].expires matches Some(expiry) && written < expiry.at),
        forall|key: CookieKey| #[trigger]
            read_at(entries, read).contains_key(key) ==> read_at(entries, read)[key] == as_written(
                before[key],
            ),
{
    assert forall|key: CookieKey|
        read_at(entries, read).dom().contains(key) == selected(
            before,
            written,
            true,
        ).dom().contains(key) by {
        session_survives(before, entries, written, read, key);
    }
    assert forall|key: CookieKey| #[trigger]
        read_at(entries, read).contains_key(key) implies read_at(entries, read)[key] == as_written(
        before[key],
    ) by {
        session_survives(before, entries, written, read, key);
    }
    assert forall|key: CookieKey| #[trigger]
        read_at(entries, read).contains_key(key) <==> before.contains_key(key) && (
        before[key].expires matches Some(expiry) && written < expiry.at) by {
        session_survives(before, entries, written, read, key);
    }
    assert(read_at(entries, read).dom() =~= selected(before, written, true).dom());
}

/// A session that has ended does not come back: a cookie that the jar no longer holds, or that had
/// expired when the jar was written, or that was only good for that session, is not in the file,
/// nor in any jar that is read from it.
pub proof fn ended_session_stays_ended(
    before: Map<CookieKey, CookieModel>,
    entries: Seq<(CookieKey, CookieModel)>,
    written: int,
    read: int,
    key: CookieKey,
)
    requires
        written_at(before, entries, written),
        ({
            ||| !before.contains_key(key)
            ||| before[key].expires is None
            ||| before[key].expires matches Some(expiry) && expiry.at <= written
        }),
    ensures
        !lists(entries, key),
        forall|i: int| 0 <= i < entries.len() ==> (#[trigger] entries[i]).0 != key,
        !read_at(entries, read).contains_key(key),
{
    session_survives(before, entries, written, read, key);
    assert forall|i: int| 0 <= i < entries.len() implies (#[trigger] entries[i]).0 != key by {
        assert(selected(before, written, true).contains_key(entries[i].0));
    }
}

/// Writing the same jar again leaves the same cookies in the file, whatever their order, as long
/// as none of them has expired in between.
pub proof fn writing_again_changes_nothing(
    cookies: Map<CookieKey, CookieModel>,
    first: Seq<(CookieKey, CookieModel)>,
    again: Seq<(CookieKey, CookieModel)>,
    written: int,
    rewritten: int,
    entry: (CookieKey, CookieModel),
)
    requires
        written_at(cookies, first, written),
        written_at(cookies, again, rewritten),
        forall|key: CookieKey| #[trigger]
            cookies.contains_key(key) ==> (cookies[key].expires matches Some(expiry) ==> (written
                < expiry.at <==> rewritten < expiry.at)),
    ensures
        first.contains(entry) <==> again.contains(entry),
{
    let chosen = selected(cookies, written, true);
    assert(chosen =~= selected(cookies, rewritten, true));
    if first.contains(entry) {
        let i = choose|i: int| 0 <= i < first.len() && first[i] == entry;
        assert(chosen.contains_key(first[i].0));
        assert(lists(again, entry.0));
        let j = choose|j: int| 0 <= j < again.len() && (#[trigger] again[j]).0 == entry.0;
        assert(again[j] == entry);
    }
    if again.contains(entry) {
        let i = choose|i: int| 0 <= i < again.len() && again[i] == entry;
        assert(chosen.contains_key(again[i].0));
        assert(lists(first, entry.0));
        let j = choose|j: int| 0 <= j < first.len() && (#[trigger] first[j]).0 == entry.0;
        assert(first[j] == entry);
    }
}

/// The file has each cookie of the jar that has an expiry still to come, once, and nothing else: no
/// cookie that ends with the session, and none whose time has come.
pub proof fn file_holds_what_outlasts_the_session(
    cookies: Map<CookieKey, CookieModel>,
    entries: Seq<(CookieKey, CookieModel)>,
    now: int,
)
    requires
        written_at(cookies, entries, now),
    ensures
        forall|key: CookieKey| #[trigger]
            cookies.contains_key(key) && (cookies[key].expires matches Some(expiry) && now
                < expiry.at) ==> exists|i: int|
                0 <= i < entries.len() && (#[trigger] entries[i]).0 == key,
        forall|i: int|
            0 <= i < entries.len() ==> cookies.contains_key((#[trigger] entries[i]).0) && (
            cookies[entries[i].0].expires matches Some(expiry) && now < expiry.at),
        forall|i: int|
            0 <= i < entries.len() ==> (#[trigger] entries[i]).1.value
                == cookies[entries[i].0].value && entries[i].1.host_only
                == cookies[entries[i].0].host_only && entries[i].1.http_only
                == cookies[entries[i].0].http_only,
        forall|i: int, j: int|
            0 <= i < j < entries.len() ==> (#[trigger] entries[i]).0 != (#[trigger] entries[j]).0,
{
    let chosen = selected(cookies, now, true);
    assert forall|key: CookieKey| #[trigger]
        cookies.contains_key(key) && (cookies[key].expires matches Some(expiry) && now
            < expiry.at) implies exists|i: int|
        0 <= i < entries.len() && (#[trigger] entries[i]).0 == key by {
        assert(chosen.contains_key(key));
        assert(lists(entries, key));
    }
    assert forall|i: int| 0 <= i < entries.len() implies chosen.contains_key(
        (#[trigger] entries[i]).0,
    ) by {}
}

/// Whether a file can be written at all, and whether it is sure to read back as written, rests on
/// the cookies alone whose expiry is still to come.
pub proof fn only_what_is_written_has_to_be_writable(jar: cookie_store::CookieStore, now: int)
    ensures
        dates_fit_at(jar, now) <==> forall|key: CookieKey| #[trigger]
            jar_dates(jar).contains_key(key) && jar_cookies(jar).contains_key(key) && (jar_cookies(
                jar,
            )[key].expires matches Some(expiry) && now < expiry.at)
                ==> -377_705_116_800_000_000_000 <= jar_dates(jar)[key]
                < 253_402_300_800_000_000_000,
        writable_at(jar_cookies(jar), now) <==> forall|key: CookieKey| #[trigger]
            jar_cookies(jar).contains_key(key) && (jar_cookies(jar)[key].expires matches Some(
                expiry,
            ) && now < expiry.at) ==> is_writable(key, jar_cookies(jar)[key]),
        dates_fit(jar) <==> forall|key: CookieKey| #[trigger]
            jar_dates(jar).contains_key(key) ==> -377_705_116_800_000_000_000 <= jar_dates(jar)[key]
                < 253_402_300_800_000_000_000,
{
}

/// A cookie can be written, whatever its domain and path, where its name and value hold no
/// separator and no white space at their ends, its name is not empty, its attributes hold no
/// semicolon, and its expiry, if it has one, is in UTC and between the years 1970 and 9999.
pub proof fn separators_alone_keep_a_cookie_from_being_written(key: CookieKey, cookie: CookieModel)
    ensures
        is_writable(key, cookie) <==> {
            &&& key.name.len() > 0
            &&& forall|i: int|
                0 <= i < key.name.len() ==> #[trigger] key.name[i] != ';' && key.name[i] != '='
            &&& forall|i: int| 0 <= i < cookie.value.len() ==> #[trigger] cookie.value[i] != ';'
            &&& !is_space(key.name[0])
            &&& !is_space(key.name[key.name.len() - 1])
            &&& cookie.value.len() > 0 ==> !is_space(cookie.value[0])
            &&& cookie.value.len() > 0 ==> !is_space(cookie.value[cookie.value.len() - 1])
            &&& cookie.plain
            &&& cookie.expires matches Some(expiry) ==> expiry.utc && 0 <= expiry.at
                < 253_402_300_800_000_000_000
        },
{
}

/// White space is a tab, a line feed, a vertical tab, a form feed, a carriage return, a space, the
/// next line control, or one of Unicode's other separators.
pub proof fn white_space_is_unicodes(c: char)
    ensures
        is_space(c) <==> {
            ||| '\u{9}' <= c <= '\u{d}'
            ||| c == ' '
            ||| c == '\u{85}'
            ||| c == '\u{a0}'
            ||| c == '\u{1680}'
            ||| '\u{2000}' <= c <= '\u{200a}'
            ||| c == '\u{2028}'
            ||| c == '\u{2029}'
            ||| c == '\u{202f}'
            ||| c == '\u{205f}'
            ||| c == '\u{3000}'
        },
{
}

/// Without a list to read, nobody is signed in.
pub proof fn no_list_is_an_empty_jar(key: CookieKey)
    ensures
        !no_cookies().contains_key(key),
{
}

/// Where one more jar is read after others, its cookie under a key is taken in place of theirs if it
/// has no expiry or its expiry is still to come, and theirs stays if not; and without any jar there
/// is no cookie.
pub proof fn reading_one_more_jar(
    jars: Seq<cookie_store::CookieStore>,
    jar: cookie_store::CookieStore,
    now: int,
    key: CookieKey,
)
    ensures
        !joined_at(Seq::empty(), now).contains_key(key),
        jar_cookies(jar).contains_key(key) && (jar_cookies(jar)[key].expires matches Some(expiry)
            ==> now < expiry.at) ==> joined_at(jars.push(jar), now).contains_key(key) && joined_at(
            jars.push(jar),
            now,
        )[key] == jar_cookies(jar)[key],
        !jar_cookies(jar).contains_key(key) || (jar_cookies(jar)[key].expires matches Some(expiry)
            && expiry.at <= now) ==> {
            &&& joined_at(jars.push(jar), now).contains_key(key) <==> joined_at(
                jars,
                now,
            ).contains_key(key)
            &&& joined_at(jars, now).contains_key(key) ==> joined_at(jars.push(jar), now)[key]
                == joined_at(jars, now)[key]
        },
{
    assert(jars.push(jar).drop_last() =~= jars);
}

/// Of jars that are joined, the last one that has a cookie under a key gives it, expired or not; and
/// without any jar there is no cookie.
pub proof fn joining_one_more_jar(
    jars: Seq<cookie_store::CookieStore>,
    jar: cookie_store::CookieStore,
    key: CookieKey,
)
    ensures
        !joined(Seq::empty()).contains_key(key),
        joined(jars.push(jar)).contains_key(key) <==> joined(jars).contains_key(key) || jar_cookies(
            jar,
        ).contains_key(key),
        jar_cookies(jar).contains_key(key) ==> joined(jars.push(jar))[key] == jar_cookies(jar)[key],
        joined(jars).contains_key(key) && !jar_cookies(jar).contains_key(key) ==> joined(
            jars.push(jar),
        )[key] == joined(jars)[key],
{
    assert(jars.push(jar).drop_last() =~= jars);
}

} // verus!
