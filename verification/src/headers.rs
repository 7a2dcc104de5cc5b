//! HTTP headers as the web app sees them: one value to a name.

use crate::text::same_text;
use vstd::prelude::*;

verus! {

/// Headers by name. No name occurs twice.
#[derive(Debug)]
pub struct Headers {
    entries: Vec<(String, String)>,
}

/// A header as it arrived: its value is bytes, and its name may occur again.
#[derive(Debug)]
pub struct RawHeader {
    pub name: String,
    pub value: Vec<u8>,
}

impl View for RawHeader {
    type V = (Seq<char>, Seq<u8>);

    open spec fn view(&self) -> (Seq<char>, Seq<u8>) {
        (self.name@, self.value@)
    }
}

impl View for Headers {
    type V = Map<Seq<char>, Seq<char>>;

    closed spec fn view(&self) -> Map<Seq<char>, Seq<char>> {
        Map::new(
            |name: Seq<char>| exists|i: int| self.holds_at(name, i),
            |name: Seq<char>| self.entries@[choose|i: int| self.holds_at(name, i)].1@,
        )
    }
}

impl Headers {
    /// No name occurs twice.
    pub closed spec fn wf(&self) -> bool {
        forall|i: int, j: int|
            0 <= i < j < self.entries@.len() ==> (#[trigger] self.entries@[i]).0@ != (
            #[trigger] self.entries@[j]).0@
    }

    closed spec fn holds_at(&self, name: Seq<char>, i: int) -> bool {
        0 <= i < self.entries@.len() && self.entries@[i].0@ == name
    }

    /// What stands in the list is what the name maps to.
    proof fn lemma_at(&self, i: int)
        requires
            self.wf(),
            0 <= i < self.entries@.len(),
        ensures
            self@.contains_key(self.entries@[i].0@),
            self@[self.entries@[i].0@] == self.entries@[i].1@,
    {
        let name = self.entries@[i].0@;
        assert(self.holds_at(name, i));
        let k = choose|k: int| self.holds_at(name, k);
        assert(k == i);
    }

    /// A map with the entries of the list, and no name besides, is the view.
    proof fn lemma_is_view(&self, map: Map<Seq<char>, Seq<char>>)
        requires
            self.wf(),
            forall|i: int|
                0 <= i < self.entries@.len() ==> map.contains_key((#[trigger] self.entries@[i]).0@)
                    && map[self.entries@[i].0@] == self.entries@[i].1@,
            forall|name: Seq<char>| #[trigger]
                map.contains_key(name) ==> exists|i: int| self.holds_at(name, i),
        ensures
            self@ == map,
    {
        assert forall|name: Seq<char>| #[trigger] self@.contains_key(name) implies map.contains_key(
            name,
        ) && self@[name] == map[name] by {
            let i = choose|i: int| self.holds_at(name, i);
            self.lemma_at(i);
        }
        assert(self@ =~= map);
    }

    /// No headers at all.
    pub fn new() -> (r: Headers)
        ensures
            r.wf(),
            r@ == Map::<Seq<char>, Seq<char>>::empty(),
    {
        let r = Headers { entries: Vec::new() };
        assert(r@ =~= Map::<Seq<char>, Seq<char>>::empty());
        r
    }

    /// Where `name` stands in the list.
    fn position(&self, name: &str) -> (r: Option<usize>)
        requires
            self.wf(),
        ensures
            match r {
                Some(i) => self.holds_at(name@, i as int),
                None => !self@.contains_key(name@),
            },
    {
        let mut i: usize = 0;
        while i < self.entries.len()
            invariant
                i <= self.entries@.len(),
                forall|k: int| 0 <= k < i ==> !self.holds_at(name@, k),
            decreases self.entries@.len() - i,
        {
            if same_text(self.entries[i].0.as_str(), name) {
                return Some(i);
            }
            i = i + 1;
        }
        None
    }

    /// Sets the value under `name`, in place of the one that was there.
    pub fn insert(&mut self, name: String, value: String)
        requires
            old(self).wf(),
        ensures
            final(self).wf(),
            final(self)@ == old(self)@.insert(name@, value@),
    {
        let ghost before = *self;
        let ghost map = before@.insert(name@, value@);
        let at = self.position(name.as_str());
        match at {
            Some(i) => self.entries.set(i, (name, value)),
            None => self.entries.push((name, value)),
        }
        proof {
            let place = match at {
                Some(i) => i as int,
                None => before.entries@.len() as int,
            };
            assert(self.holds_at(name@, place));
            assert forall|i: int| 0 <= i < self.entries@.len() && i != place implies {
                &&& #[trigger] self.entries@[i] == before.entries@[i]
                &&& before@.contains_key(before.entries@[i].0@)
                &&& before@[before.entries@[i].0@] == before.entries@[i].1@
                &&& before.entries@[i].0@ != name@
            } by {
                before.lemma_at(i);
            }
            assert forall|n: Seq<char>| #[trigger] map.contains_key(n) implies exists|i: int|
                self.holds_at(n, i) by {
                if n != name@ {
                    let i = choose|i: int| before.holds_at(n, i);
                    assert(self.holds_at(n, i));
                }
            }
            self.lemma_is_view(map);
        }
    }

    /// Whether there is a header of this name.
    pub fn contains_key(&self, name: &str) -> (r: bool)
        requires
            self.wf(),
        ensures
            r == self@.contains_key(name@),
    {
        match self.position(name) {
            Some(i) => {
                proof {
                    self.lemma_at(i as int);
                }
                true
            },
            None => false,
        }
    }

    /// The value under `name`.
    pub fn get(&self, name: &str) -> (r: Option<&String>)
        requires
            self.wf(),
        ensures
            match r {
                Some(value) => self@.contains_key(name@) && value@ == self@[name@],
                None => !self@.contains_key(name@),
            },
    {
        match self.position(name) {
            Some(i) => {
                proof {
                    self.lemma_at(i as int);
                }
                Some(&self.entries[i].1)
            },
            None => None,
        }
    }

    /// The headers one after another.
    pub fn into_entries(self) -> (r: Vec<(String, String)>)
        requires
            self.wf(),
        ensures
            is_listing(r@, self@),
    {
        proof {
            assert forall|i: int| 0 <= i < self.entries@.len() implies self@.contains_key(
                (#[trigger] self.entries@[i]).0@,
            ) && self@[self.entries@[i].0@] == self.entries@[i].1@ by {
                self.lemma_at(i);
            }
            assert forall|name: Seq<char>| #[trigger] self@.contains_key(name) implies exists|
                i: int,
            |
                0 <= i < self.entries@.len() && (#[trigger] self.entries@[i]).0@ == name by {
                let i = choose|i: int| self.holds_at(name, i);
                assert(self.entries@[i].0@ == name);
            }
        }
        self.entries
    }
}

/// Whether `entries` gives each header of `headers` exactly once, in some order.
pub open spec fn is_listing(
    entries: Seq<(String, String)>,
    headers: Map<Seq<char>, Seq<char>>,
) -> bool {
    &&& forall|i: int|
        0 <= i < entries.len() ==> headers.contains_key((#[trigger] entries[i]).0@)
            && headers[entries[i].0@] == entries[i].1@
    &&& forall|i: int, j: int|
        0 <= i < j < entries.len() ==> (#[trigger] entries[i]).0@ != (#[trigger] entries[j]).0@
    &&& forall|name: Seq<char>| #[trigger]
        headers.contains_key(name) ==> exists|i: int|
            0 <= i < entries.len() && (#[trigger] entries[i]).0@ == name
}

/// A letter in lower case where it is one of `A` to `Z`, and any other character as it is.
pub open spec fn to_lower(c: char) -> char {
    if 'A' <= c <= 'Z' {
        (c as u32 + 32) as char
    } else {
        c
    }
}

/// Text with `A` to `Z` in lower case.
pub open spec fn lower(text: Seq<char>) -> Seq<char> {
    text.map_values(|c: char| to_lower(c))
}

/// Whether a header value is text: visible ASCII, spaces and tabs.
pub open spec fn is_readable(value: Seq<u8>) -> bool {
    forall|i: int| 0 <= i < value.len() ==> 32 <= #[trigger] value[i] < 127 || value[i] == 9
}

/// The characters with the codes that `value` holds.
pub open spec fn ascii(value: Seq<u8>) -> Seq<char> {
    value.map_values(|b: u8| b as char)
}

/// The names and values of headers as they arrived.
pub open spec fn raw_headers(headers: Seq<RawHeader>) -> Seq<(Seq<char>, Seq<u8>)> {
    headers.map_values(|header: RawHeader| header@)
}

/// What the web app is told of headers: each under its name in lower case, a later one in place of
/// an earlier one of the same name, and those whose value is not text left out.
pub open spec fn told_of(raw: Seq<(Seq<char>, Seq<u8>)>) -> Map<Seq<char>, Seq<char>>
    decreases raw.len(),
{
    if raw.len() == 0 {
        Map::empty()
    } else {
        let told = told_of(raw.drop_last());
        let (name, value) = raw.last();
        if is_readable(value) {
            told.insert(lower(name), ascii(value))
        } else {
            told
        }
    }
}

/// [`str::to_ascii_lowercase`]: `A` to `Z` become `a` to `z`, and nothing else changes.
#[verifier::external_body]
fn to_ascii_lowercase(name: &str) -> (r: String)
    ensures
        r@ == lower(name@),
{
    name.to_ascii_lowercase()
}

/// [`reqwest::header::HeaderValue::to_str`], on a value made of `value`: the same bytes as text,
/// where all of them are visible ASCII, spaces or tabs. Bytes that no header value can hold are
/// none of these.
#[verifier::external_body]
fn header_text(value: &[u8]) -> (r: Option<String>)
    ensures
        r is Some <==> is_readable(value@),
        r matches Some(text) ==> text@ == ascii(value@),
{
    let value = reqwest::header::HeaderValue::from_bytes(value).ok()?;
    value.to_str().ok().map(|text| text.to_string())
}

/// What the web app is told of the headers of a response.
pub fn collect_headers(raw: &Vec<RawHeader>) -> (r: Headers)
    ensures
        r.wf(),
        r@ == told_of(raw_headers(raw@)),
{
    let ghost models = raw_headers(raw@);
    let mut headers = Headers::new();
    let mut i: usize = 0;
    while i < raw.len()
        invariant
            i <= raw@.len(),
            models == raw_headers(raw@),
            headers.wf(),
            headers@ == told_of(models.take(i as int)),
        decreases raw@.len() - i,
    {
        proof {
            assert(models.take(i + 1).drop_last() =~= models.take(i as int));
            assert(models.take(i + 1).last() == raw@[i as int]@);
        }
        if let Some(text) = header_text(raw[i].value.as_slice()) {
            headers.insert(to_ascii_lowercase(raw[i].name.as_str()), text);
        }
        i = i + 1;
    }
    assert(models.take(raw@.len() as int) =~= models);
    headers
}

/// A header is told of exactly where one arrived whose name is the same in lower case and whose
/// value is text, and then with the value of the last such one.
pub proof fn last_readable_header_wins(raw: Seq<(Seq<char>, Seq<u8>)>, name: Seq<char>)
    ensures
        told_of(raw).contains_key(name) <==> exists|i: int|
            0 <= i < raw.len() && lower((#[trigger] raw[i]).0) == name && is_readable(raw[i].1),
        forall|i: int|
            0 <= i < raw.len() && lower((#[trigger] raw[i]).0) == name && is_readable(raw[i].1) && (
            forall|j: int|
                i < j < raw.len() && lower((#[trigger] raw[j]).0) == name ==> !is_readable(raw[j].1))
                ==> told_of(raw)[name] == ascii(raw[i].1),
    decreases raw.len(),
{
    if raw.len() > 0 {
        let rest = raw.drop_last();
        let last = raw.len() - 1;
        last_readable_header_wins(rest, name);
        if told_of(raw).contains_key(name) {
            if told_of(rest).contains_key(name) {
                let i = choose|i: int|
                    0 <= i < rest.len() && lower((#[trigger] rest[i]).0) == name && is_readable(
                        rest[i].1,
                    );
                assert(raw[i] == rest[i]);
            } else {
                assert(lower(raw[last].0) == name);
            }
        }
        assert forall|i: int|
            0 <= i < raw.len() && lower((#[trigger] raw[i]).0) == name && is_readable(
                raw[i].1,
            ) implies told_of(raw).contains_key(name) by {
            if i < last {
                assert(rest[i] == raw[i]);
            }
        }
        assert forall|i: int|
            0 <= i < raw.len() && lower((#[trigger] raw[i]).0) == name && is_readable(raw[i].1) && (
            forall|j: int|
                i < j < raw.len() && lower((#[trigger] raw[j]).0) == name ==> !is_readable(
                    raw[j].1,
                )) implies told_of(raw)[name] == ascii(raw[i].1) by {
            if i < last {
                assert(rest[i] == raw[i]);
                assert forall|j: int|
                    i < j < rest.len() && lower((#[trigger] rest[j]).0) == name implies !is_readable(
                    rest[j].1,
                ) by {
                    assert(raw[j] == rest[j]);
                }
                assert(lower(raw[last].0) == name ==> !is_readable(raw[last].1));
            }
        }
    }
}

/// Every name that the web app is told of is in lower case.
pub proof fn told_names_are_lower_case(raw: Seq<(Seq<char>, Seq<u8>)>, name: Seq<char>)
    requires
        told_of(raw).contains_key(name),
    ensures
        lower(name) == name,
{
    last_readable_header_wins(raw, name);
    let i = choose|i: int|
        0 <= i < raw.len() && lower((#[trigger] raw[i]).0) == name && is_readable(raw[i].1);
    assert forall|k: int| 0 <= k < name.len() implies lower(name)[k] == name[k] by {
        let c = raw[i].0[k];
        assert(name[k] == to_lower(c));
    }
    assert(lower(name) =~= name);
}

/// Of the headers of a response, however many, the web app is told of a name exactly where one of
/// them has that name in lower case and a value that is text, and then with the value of the last
/// such one.
pub proof fn headers_are_told_as_they_arrived(headers: Seq<RawHeader>, name: Seq<char>)
    ensures
        raw_headers(headers).len() == headers.len(),
        forall|i: int|
            0 <= i < headers.len() ==> #[trigger] raw_headers(headers)[i] == (
                headers[i].name@,
                headers[i].value@,
            ),
        told_of(raw_headers(headers)).contains_key(name) <==> exists|i: int|
            0 <= i < headers.len() && lower((#[trigger] headers[i]).name@) == name && is_readable(
                headers[i].value@,
            ),
        forall|i: int|
            0 <= i < headers.len() && lower((#[trigger] headers[i]).name@) == name && is_readable(
                headers[i].value@,
            ) && (forall|j: int|
                i < j < headers.len() && lower((#[trigger] headers[j]).name@) == name
                    ==> !is_readable(headers[j].value@)) ==> told_of(raw_headers(headers))[name]
                == ascii(headers[i].value@),
{
    let raw = raw_headers(headers);
    last_readable_header_wins(raw, name);
    if told_of(raw).contains_key(name) {
        let i = choose|i: int|
            0 <= i < raw.len() && lower((#[trigger] raw[i]).0) == name && is_readable(raw[i].1);
        assert(lower(headers[i].name@) == name);
    }
    assert forall|i: int|
        0 <= i < headers.len() && lower((#[trigger] headers[i]).name@) == name && is_readable(
            headers[i].value@,
        ) implies told_of(raw).contains_key(name) by {
        assert(lower(raw[i].0) == name);
    }
    assert forall|i: int|
        0 <= i < headers.len() && lower((#[trigger] headers[i]).name@) == name && is_readable(
            headers[i].value@,
        ) && (forall|j: int|
            i < j < headers.len() && lower((#[trigger] headers[j]).name@) == name ==> !is_readable(
                headers[j].value@,
            )) implies told_of(raw)[name] == ascii(headers[i].value@) by {
        assert(lower(raw[i].0) == name);
        assert forall|j: int| i < j < raw.len() && lower((#[trigger] raw[j]).0) == name implies
            !is_readable(raw[j].1) by {
            assert(lower(headers[j].name@) == name);
        }
    }
}

/// Lower case has as many characters as the text, and differs from it in the letters `A` to `Z`
/// alone, each of which becomes its small letter.
pub proof fn lower_case_changes_capitals_alone(text: Seq<char>)
    ensures
        lower(text).len() == text.len(),
        forall|i: int|
            0 <= i < text.len() && 65 <= (#[trigger] text[i]) as u32 <= 90 ==> lower(text)[i] as u32
                == text[i] as u32 + 32,
        forall|i: int|
            0 <= i < text.len() && !(65 <= (#[trigger] text[i]) as u32 <= 90) ==> lower(text)[i]
                == text[i],
{
    assert forall|i: int| 0 <= i < text.len() implies #[trigger] lower(text)[i] == to_lower(
        text[i],
    ) by {}
}

/// A value is kept from the web app exactly where some byte of it is a control other than a tab, or
/// beyond ASCII.
pub proof fn unreadable_values_hold_an_unreadable_byte(value: Seq<u8>)
    ensures
        !is_readable(value) <==> exists|i: int|
            0 <= i < value.len() && {
                ||| #[trigger] value[i] < 9
                ||| 9 < value[i] < 32
                ||| 127 <= value[i]
            },
{
}

/// A value is told character for byte.
pub proof fn values_are_told_byte_by_byte(value: Seq<u8>)
    ensures
        ascii(value).len() == value.len(),
        forall|i: int| 0 <= i < value.len() ==> (#[trigger] ascii(value)[i]) as u32 == value[i] as u32,
{
}

/// A list of headers has each header once: a name is in the list exactly where there is a header of
/// that name, at one place alone, and with that header's value.
pub proof fn listings_are_exact(
    entries: Seq<(String, String)>,
    headers: Map<Seq<char>, Seq<char>>,
    name: Seq<char>,
)
    requires
        is_listing(entries, headers),
    ensures
        headers.contains_key(name) <==> exists|i: int|
            0 <= i < entries.len() && (#[trigger] entries[i]).0@ == name,
        forall|i: int|
            0 <= i < entries.len() && (#[trigger] entries[i]).0@ == name ==> headers[name]
                == entries[i].1@,
        forall|i: int, j: int|
            0 <= i < entries.len() && 0 <= j < entries.len() && (#[trigger] entries[i]).0@ == name
                && (#[trigger] entries[j]).0@ == name ==> i == j,
{
}

} // verus!
