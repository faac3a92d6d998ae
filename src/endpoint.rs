//! Addressing the library service: endpoint addresses, the salted token
//! that authenticates each request, and the streaming address of a track.

use vstd::prelude::*;
use rand::Rng;
use rand::distributions::Alphanumeric;
use crate::config::Config;
use crate::text::{chars_of, joined, string_of, trim_end_slashes};

verus! {

/// The lowercase hex MD5 digest of the UTF-8 bytes of `data`.
pub uninterp spec fn md5_hex_of(data: Seq<char>) -> Seq<char>;

/// Relies on `md5::compute` over the UTF-8 bytes of `data` and the digest's
/// `LowerHex` format, which writes each of its 16 bytes as two lowercase hex
/// digits.
#[verifier::external_body]
fn md5_hex(data: &str) -> (r: String)
    ensures
        r@ == md5_hex_of(data@),
        r@.len() == 32,
{
    format!("{:x}", md5::compute(data))
}

pub open spec fn is_alphanumeric_ascii(c: char) -> bool {
    ('A' <= c && c <= 'Z') || ('a' <= c && c <= 'z') || ('0' <= c && c <= '9')
}

/// Relies on rand's `Alphanumeric` distribution, which draws ASCII letters
/// and digits: `n` of them from the thread-local generator.
#[verifier::external_body]
fn random_salt(n: usize) -> (r: String)
    ensures
        r@.len() == n,
        forall|i: int| 0 <= i < n ==> is_alphanumeric_ascii(#[trigger] r@[i]),
{
    rand::thread_rng().sample_iter(&Alphanumeric).take(n).map(char::from).collect()
}

/// The pairs of `v` as text.
pub open spec fn pair_texts(v: Seq<(String, String)>) -> Seq<(Seq<char>, Seq<char>)> {
    v.map_values(|p: (String, String)| (p.0@, p.1@))
}

/// The address that `base` with `pairs` appended to its query, form-encoded,
/// reads as; none where `base` is not an absolute address.
pub uninterp spec fn query_url_of(base: Seq<char>, pairs: Seq<(Seq<char>, Seq<char>)>) -> Option<
    Seq<char>,
>;

/// Relies on reqwest's `Url` (the url crate): parses `base`, appends the
/// pairs to its query, form-encoded and in order, and writes the address
/// out; a base that does not parse gives none.
#[verifier::external_body]
fn url_with_query(base: &str, pairs: &Vec<(String, String)>) -> (r: Option<String>)
    ensures
        match r {
            Some(u) => query_url_of(base@, pair_texts(pairs@)) == Some(u@),
            None => query_url_of(base@, pair_texts(pairs@)) is None,
        },
{
    let mut url = reqwest::Url::parse(base).ok()?;
    url.query_pairs_mut().extend_pairs(pairs.iter().map(|p| (p.0.as_str(), p.1.as_str())));
    Some(url.to_string())
}

/// Length of the salt of one request.
pub const SALT_LEN: usize = 8;

/// A fresh salt for one request: eight ASCII letters or digits, at random.
pub fn new_salt() -> (r: String)
    ensures
        r@.len() == 8,
        forall|i: int| 0 <= i < 8 ==> is_alphanumeric_ascii(#[trigger] r@[i]),
{
    random_salt(SALT_LEN)
}

/// The token that proves the password: the MD5 of password then salt.
pub fn token_for(password: &str, salt: &str) -> (r: String)
    ensures
        r@ == md5_hex_of(password@ + salt@),
{
    let data = joined(password, salt);
    md5_hex(data.as_str())
}

/// The address of endpoint `endpoint`: `<base>/rest/<endpoint>.<suffix>`,
/// without the base's trailing slashes.
pub open spec fn endpoint_address(base: Seq<char>, endpoint: Seq<char>, suffix: Seq<char>) -> Seq<char> {
    trim_end_slashes(base) + "/rest/"@ + endpoint + "."@ + suffix
}

/// What the daemon needs to address the library service.
#[derive(Debug)]
pub struct ServiceSettings {
    pub base_url: String,
    pub username: String,
    pub password: String,
    pub api_version: String,
    pub client_name: String,
    pub endpoint_suffix: String,
}

fn pair(k: &str, v: &str) -> (r: (String, String))
    ensures
        r.0@ == k@,
        r.1@ == v@,
{
    (k.to_string(), v.to_string())
}

impl ServiceSettings {
    pub fn from_config(config: &Config) -> (r: Self)
        ensures
            r.base_url == config.server_url,
            r.username == config.username,
            r.password == config.password,
            r.api_version == config.api_version,
            r.client_name == config.client_name,
            r.endpoint_suffix == config.endpoint_suffix,
    {
        ServiceSettings {
            base_url: config.server_url.clone(),
            username: config.username.clone(),
            password: config.password.clone(),
            api_version: config.api_version.clone(),
            client_name: config.client_name.clone(),
            endpoint_suffix: config.endpoint_suffix.clone(),
        }
    }

    /// The address of `endpoint`.
    pub fn endpoint_url(&self, endpoint: &str) -> (r: String)
        ensures
            r@ == endpoint_address(self.base_url@, endpoint@, self.endpoint_suffix@),
    {
        let mut base = chars_of(self.base_url.as_str());
        while base.len() > 0 && base[base.len() - 1] == '/'
            invariant
                trim_end_slashes(base@) == trim_end_slashes(self.base_url@),
            decreases base.len(),
        {
            base.pop();
        }
        proof {
            assert(trim_end_slashes(base@) == base@);
        }
        let b = string_of(&base);
        let a = joined(b.as_str(), "/rest/");
        let c = joined(a.as_str(), endpoint);
        let d = joined(c.as_str(), ".");
        joined(d.as_str(), self.endpoint_suffix.as_str())
    }

    /// The parameters that authenticate a request salted with `salt`:
    /// user, token, salt, API version and client name.
    pub open spec fn auth_texts(&self, salt: Seq<char>) -> Seq<(Seq<char>, Seq<char>)> {
        seq![
            ("u"@, self.username@),
            ("t"@, md5_hex_of(self.password@ + salt)),
            ("s"@, salt),
            ("v"@, self.api_version@),
            ("c"@, self.client_name@),
        ]
    }

    fn auth_pairs(&self, salt: &str) -> (r: Vec<(String, String)>)
        ensures
            pair_texts(r@) == self.auth_texts(salt@),
    {
        let token = token_for(self.password.as_str(), salt);
        let mut v: Vec<(String, String)> = Vec::new();
        v.push(pair("u", self.username.as_str()));
        v.push(pair("t", token.as_str()));
        v.push(pair("s", salt));
        v.push(pair("v", self.api_version.as_str()));
        v.push(pair("c", self.client_name.as_str()));
        assert(pair_texts(v@) =~= self.auth_texts(salt@));
        v
    }

    /// The query of an API request salted with `salt`: the authentication
    /// parameters, the JSON format, then `extra`.
    pub fn query_params(&self, salt: &str, extra: Vec<(String, String)>) -> (r: Vec<(String, String)>)
        ensures
            pair_texts(r@) == self.auth_texts(salt@) + seq![("f"@, "json"@)] + pair_texts(extra@),
    {
        let mut v = self.auth_pairs(salt);
        let ghost first = v@;
        v.push(pair("f", "json"));
        let ghost second = v@;
        let mut extra = extra;
        let ghost ex = extra@;
        v.append(&mut extra);
        assert(pair_texts(second) =~= pair_texts(first) + seq![("f"@, "json"@)]);
        assert(pair_texts(v@) =~= pair_texts(second) + pair_texts(ex));
        v
    }

    /// The streaming address of track `song_id`, its request salted with
    /// `salt`; none where the base address does not parse.
    pub fn stream_url(&self, song_id: &str, salt: &str) -> (r: Option<String>)
        ensures
            match r {
                Some(u) => query_url_of(
                    endpoint_address(self.base_url@, "stream"@, self.endpoint_suffix@),
                    self.auth_texts(salt@).push(("id"@, song_id@)),
                ) == Some(u@),
                None => query_url_of(
                    endpoint_address(self.base_url@, "stream"@, self.endpoint_suffix@),
                    self.auth_texts(salt@).push(("id"@, song_id@)),
                ) is None,
            },
    {
        let base = self.endpoint_url("stream");
        let mut pairs = self.auth_pairs(salt);
        let ghost first = pairs@;
        pairs.push(pair("id", song_id));
        assert(pair_texts(pairs@) =~= pair_texts(first).push(("id"@, song_id@)));
        url_with_query(base.as_str(), &pairs)
    }
}

} // verus!
