//! Request building for the search provider and the upload destination. The
//! requests themselves are sent by the caller; this module decides what they
//! say.

use vstd::prelude::*;
use vstd::string::*;
use crate::models::PutioFile;
use crate::text::{digit_char, push_str};

verus! {

/// Bytes that stand for themselves in a query string.
pub open spec fn unreserved(b: u8) -> bool {
    (65 <= b <= 90) || (97 <= b <= 122) || (48 <= b <= 57) || b == 45 || b == 95 || b == 46 || b == 126
}

/// Upper-case hexadecimal digit for `d < 16`.
pub open spec fn hex_upper(d: nat) -> char {
    if d < 10 { digit_char(d) }
    else if d == 10 { 'A' }
    else if d == 11 { 'B' }
    else if d == 12 { 'C' }
    else if d == 13 { 'D' }
    else if d == 14 { 'E' }
    else { 'F' }
}

/// One byte of a query string: itself if unreserved, else `%XX`.
pub open spec fn byte_encoded(b: u8) -> Seq<char> {
    if unreserved(b) {
        seq![b as char]
    } else {
        seq!['%', hex_upper((b / 16) as nat), hex_upper((b % 16) as nat)]
    }
}

/// Percent-encoding of a byte string.
pub open spec fn url_encoded(bytes: Seq<u8>) -> Seq<char>
    decreases bytes.len(),
{
    if bytes.len() == 0 {
        Seq::empty()
    } else {
        url_encoded(bytes.drop_last()) + byte_encoded(bytes.last())
    }
}

fn hex_digit(d: u8) -> (c: char)
    requires
        d < 16,
    ensures
        c == hex_upper(d as nat),
{
    if d < 10 { crate::text::digit(d as u64) }
    else if d == 10 { 'A' }
    else if d == 11 { 'B' }
    else if d == 12 { 'C' }
    else if d == 13 { 'D' }
    else if d == 14 { 'E' }
    else { 'F' }
}

/// Percent-encodes the UTF-8 bytes of `s` for a query string.
pub fn urlencode(s: &str) -> (r: String)
    ensures
        r@ == url_encoded(s.spec_bytes()),
{
    let bytes = s.as_bytes();
    let mut out = String::new();
    let mut i: usize = 0;
    while i < bytes.len()
        invariant
            bytes@ == s.spec_bytes(),
            i <= bytes@.len(),
            out@ == url_encoded(bytes@.take(i as int)),
        decreases bytes@.len() - i,
    {
        let b = bytes[i];
        if (b >= 65 && b <= 90) || (b >= 97 && b <= 122) || (b >= 48 && b <= 57) || b == 45 || b == 95
            || b == 46 || b == 126 {
            out.push(b as char);
        } else {
            out.push('%');
            out.push(hex_digit(b / 16));
            out.push(hex_digit(b % 16));
        }
        proof {
            let t = bytes@.take(i + 1);
            assert(t.drop_last() =~= bytes@.take(i as int));
            assert(t.last() == b);
        }
        i = i + 1;
        assert(out@ =~= url_encoded(bytes@.take(i as int)));
    }
    assert(bytes@.take(i as int) =~= bytes@);
    out
}

/// Items joined with commas.
pub open spec fn comma_joined(items: Seq<Seq<char>>) -> Seq<char>
    decreases items.len(),
{
    if items.len() == 0 {
        Seq::empty()
    } else if items.len() == 1 {
        items[0]
    } else {
        comma_joined(items.drop_last()) + seq![','] + items.last()
    }
}

/// The index filter of a search request: present only for a non-empty list
/// that does not hold `all`.
pub open spec fn indexer_param(indexers: Option<Seq<Seq<char>>>) -> Seq<char> {
    match indexers {
        Some(ix) => if ix.len() > 0 && !ix.contains("all"@) {
            "&indexer="@ + comma_joined(ix)
        } else {
            Seq::empty()
        },
        None => Seq::empty(),
    }
}

pub open spec fn bool_text(b: bool) -> Seq<char> {
    if b { "true"@ } else { "false"@ }
}

/// The full search request URL.
pub open spec fn search_url_text(
    base: Seq<char>,
    query: Seq<u8>,
    indexers: Option<Seq<Seq<char>>>,
    filter_nsfw: bool,
) -> Seq<char> {
    base + "/search?keyword="@ + url_encoded(query) + indexer_param(indexers) + "&filterNastyResults="@
        + bool_text(filter_nsfw)
}

pub open spec fn string_views(v: Seq<String>) -> Seq<Seq<char>> {
    v.map_values(|s: String| s@)
}

pub proof fn lemma_string_views_push(v: Seq<String>, s: String)
    ensures
        string_views(v.push(s)) == string_views(v).push(s@),
{
    assert(string_views(v.push(s)) =~= string_views(v).push(s@));
}

/// Client of the search provider.
#[derive(Clone, Debug)]
pub struct ChillClient {
    api_key: String,
    putio_token: Option<String>,
    base_url: String,
}

pub open spec fn chill_base_url() -> Seq<char> {
    "https://chill.institute/api/v3"@
}

impl ChillClient {
    pub closed spec fn key(&self) -> Seq<char> {
        self.api_key@
    }

    pub closed spec fn token(&self) -> Option<String> {
        self.putio_token
    }

    pub closed spec fn base(&self) -> Seq<char> {
        self.base_url@
    }

    pub fn new(api_key: String, putio_token: Option<String>) -> (r: Self)
        ensures
            r.key() == api_key@,
            r.token() == putio_token,
            r.base() == chill_base_url(),
    {
        ChillClient { api_key, putio_token, base_url: String::from_str("https://chill.institute/api/v3") }
    }

    /// The value of the `Authorization` header.
    pub fn api_key(&self) -> (r: &String)
        ensures
            r@ == self.key(),
    {
        &self.api_key
    }

    /// The upload-service token forwarded with each search, if any.
    pub fn putio_token(&self) -> (r: &Option<String>)
        ensures
            *r == self.token(),
    {
        &self.putio_token
    }

    /// The URL of a search for `query`, narrowed to `indexers` unless the
    /// list is empty or holds `all`.
    pub fn search_url(&self, query: &str, indexers: Option<&[String]>, filter_nsfw: bool) -> (r: String)
        ensures
            r@ == search_url_text(
                self.base(),
                query.spec_bytes(),
                match indexers {
                    Some(ix) => Some(string_views(ix@)),
                    None => None,
                },
                filter_nsfw,
            ),
    {
        let mut url = self.base_url.clone();
        push_str(&mut url, "/search?keyword=");
        let encoded = urlencode(query);
        push_str(&mut url, encoded.as_str());
        let ghost head = url@;
        let ghost ixv = match indexers {
            Some(ix) => Some(string_views(ix@)),
            None => None,
        };
        if let Some(idxs) = indexers {
            if idxs.len() > 0 && !holds_all(idxs) {
                push_str(&mut url, "&indexer=");
                push_joined(&mut url, idxs);
            }
        }
        assert(url@ == head + indexer_param(ixv));
        push_str(&mut url, "&filterNastyResults=");
        if filter_nsfw {
            push_str(&mut url, "true");
        } else {
            push_str(&mut url, "false");
        }
        proof {
            reveal_strlit("true");
            reveal_strlit("false");
        }
        url
    }
}

/// Whether one of `items` is `all`.
fn holds_all(items: &[String]) -> (r: bool)
    ensures
        r == string_views(items@).contains("all"@),
{
    let all = String::from_str("all");
    let mut i: usize = 0;
    while i < items.len()
        invariant
            all@ == "all"@,
            i <= items@.len(),
            forall|k: int| 0 <= k < i ==> items@[k]@ != "all"@,
        decreases items@.len() - i,
    {
        if items[i] == all {
            assert(string_views(items@)[i as int] == "all"@);
            return true;
        }
        i = i + 1;
    }
    assert forall|k: int| 0 <= k < items@.len() implies string_views(items@)[k] != "all"@ by {}
    false
}

/// Appends `items` joined with commas.
fn push_joined(out: &mut String, items: &[String])
    ensures
        final(out)@ == old(out)@ + comma_joined(string_views(items@)),
{
    let ghost start = out@;
    let mut i: usize = 0;
    while i < items.len()
        invariant
            i <= items@.len(),
            out@ == start + comma_joined(string_views(items@.take(i as int))),
        decreases items@.len() - i,
    {
        if i > 0 {
            out.push(',');
        }
        push_str(out, items[i].as_str());
        proof {
            let v = string_views(items@.take(i + 1));
            assert(v.drop_last() =~= string_views(items@.take(i as int)));
            assert(v.last() == items@[i as int]@);
            if i == 0 {
                assert(v.len() == 1);
            }
        }
        i = i + 1;
        assert(out@ =~= start + comma_joined(string_views(items@.take(i as int))));
    }
    assert(items@.take(i as int) =~= items@);
}

/// Client of the upload destination.
#[derive(Clone, Debug)]
pub struct PutioClient {
    token: String,
    base_url: String,
}

pub open spec fn putio_base_url() -> Seq<char> {
    "https://api.put.io/v2"@
}

pub open spec fn oauth_url_text(client_id: Seq<char>) -> Seq<char> {
    "https://app.put.io/v2/oauth2/authenticate?client_id="@ + client_id
        + "&response_type=code&redirect_uri=urn:ietf:wg:oauth:2.0:oob"@
}

/// The position of the first file called `name`, if any.
pub open spec fn first_named(files: Seq<PutioFile>, name: Seq<char>) -> Option<int> {
    if exists|i: int| 0 <= i < files.len() && files[i].name@ == name {
        Some(choose|i: int| 0 <= i < files.len() && files[i].name@ == name
            && forall|j: int| 0 <= j < i ==> files[j].name@ != name)
    } else {
        None
    }
}

impl PutioClient {
    pub closed spec fn token_text(&self) -> Seq<char> {
        self.token@
    }

    pub closed spec fn base(&self) -> Seq<char> {
        self.base_url@
    }

    pub fn new(token: String) -> (r: Self)
        ensures
            r.token_text() == token@,
            r.base() == putio_base_url(),
    {
        PutioClient { token, base_url: String::from_str("https://api.put.io/v2") }
    }

    /// The URL of an API path such as `/files/list?parent_id=0`.
    pub fn endpoint(&self, path: &str) -> (r: String)
        ensures
            r@ == self.base() + path@,
    {
        let mut url = self.base_url.clone();
        push_str(&mut url, path);
        url
    }

    /// The value of the `Authorization` header.
    pub fn bearer(&self) -> (r: String)
        ensures
            r@ == "Bearer "@ + self.token_text(),
    {
        let mut h = String::from_str("Bearer ");
        push_str(&mut h, self.token.as_str());
        h
    }

    /// The page where a user authorises this application.
    pub fn get_oauth_url(client_id: &str) -> (r: String)
        ensures
            r@ == oauth_url_text(client_id@),
    {
        let mut url = String::from_str("https://app.put.io/v2/oauth2/authenticate?client_id=");
        push_str(&mut url, client_id);
        push_str(&mut url, "&response_type=code&redirect_uri=urn:ietf:wg:oauth:2.0:oob");
        url
    }

    /// The id of the first listed file called `name`.
    pub fn find_folder(files: &[PutioFile], name: &str) -> (r: Option<u64>)
        ensures
            match first_named(files@, name@) {
                Some(i) => r == Some(files@[i].id),
                None => r is None,
            },
    {
        let wanted = String::from_str(name);
        let mut i: usize = 0;
        while i < files.len()
            invariant
                wanted@ == name@,
                i <= files@.len(),
                forall|j: int| 0 <= j < i ==> files@[j].name@ != name@,
            decreases files@.len() - i,
        {
            if files[i].name == wanted {
                proof {
                    let k = i as int;
                    assert(0 <= k < files@.len() && files@[k].name@ == name@);
                    let c = first_named(files@, name@)->0;
                    if c < k {
                        assert(files@[c].name@ != name@);
                    } else if c > k {
                        assert(files@[k].name@ != name@);
                    }
                }
                return Some(files[i].id);
            }
            i = i + 1;
        }
        None
    }
}

} // verus!
