//! Daemon settings: the stored file's optional fields, their defaults, and
//! the decisions behind the interactive prompts.

use vstd::prelude::*;
use crate::matching::lowercase_of;
use crate::text::{
    chars_of, has_visible, has_visible_chars, parse_unsigned, parse_unsigned_chars, string_of,
    trim_chars, trim_end_slashes, trimmed,
};

verus! {

pub const DEFAULT_API_VERSION: &'static str = "1.16.1";

pub const DEFAULT_CLIENT_NAME: &'static str = "simplay";

pub const DEFAULT_ENDPOINT_SUFFIX: &'static str = "view";

pub const DEFAULT_MAX_SHUFFLE: usize = 0;

pub const DEFAULT_VOLUME_STEP: u8 = 5;

pub const DEFAULT_END_GRACE_MS: u64 = 500;

/// The settings the daemon and the client run with.
#[derive(Debug, Clone)]
pub struct Config {
    pub server_url: String,
    pub username: String,
    pub password: String,
    pub api_version: String,
    pub client_name: String,
    pub endpoint_suffix: String,
    pub tls_verify: bool,
    /// Largest number of tracks a library-wide shuffle plays; 0 for no limit.
    pub max_shuffle: usize,
    pub volume_step: u8,
    pub end_grace_ms: u64,
}

/// The settings as stored, each of them optional.
#[derive(Debug)]
pub struct ConfigFile {
    pub server_url: Option<String>,
    pub username: Option<String>,
    pub password: Option<String>,
    pub api_version: Option<String>,
    pub client_name: Option<String>,
    pub endpoint_suffix: Option<String>,
    pub tls_verify: Option<bool>,
    pub max_shuffle: Option<usize>,
    pub volume_step: Option<u8>,
    pub end_grace_ms: Option<u64>,
}

impl Default for ConfigFile {
    fn default() -> (r: Self)
        ensures
            r.server_url is None,
            r.username is None,
            r.password is None,
            r.api_version is None,
            r.client_name is None,
            r.endpoint_suffix is None,
            r.tls_verify is None,
            r.max_shuffle is None,
            r.volume_step is None,
            r.end_grace_ms is None,
    {
        ConfigFile {
            server_url: None,
            username: None,
            password: None,
            api_version: None,
            client_name: None,
            endpoint_suffix: None,
            tls_verify: None,
            max_shuffle: None,
            volume_step: None,
            end_grace_ms: None,
        }
    }
}

/// The text of `o`, or `d` when it is absent.
pub open spec fn text_or(o: Option<String>, d: Seq<char>) -> Seq<char> {
    match o {
        Some(s) => s@,
        None => d,
    }
}

/// A server address without surrounding white space and trailing slashes.
pub open spec fn normalized_url(s: Seq<char>) -> Seq<char> {
    trim_end_slashes(trimmed(s))
}

/// `input` without surrounding white space and trailing slashes.
pub fn normalize_url(input: &str) -> (r: String)
    ensures
        r@ == normalized_url(input@),
{
    let cs = chars_of(input);
    let mut t = trim_chars(&cs);
    while t.len() > 0 && t[t.len() - 1] == '/'
        invariant
            trim_end_slashes(t@) == normalized_url(input@),
        decreases t.len(),
    {
        t.pop();
    }
    string_of(&t)
}

/// A required field that the stored settings lack.
#[derive(Debug, PartialEq, Eq, Clone, Copy)]
pub enum RequiredField {
    ServerUrl,
    Username,
    Password,
}

/// A field that is absent or empty.
pub open spec fn missing(o: Option<String>) -> bool {
    match o {
        Some(s) => s@.len() == 0,
        None => true,
    }
}

fn is_missing(o: &Option<String>) -> (r: bool)
    ensures
        r == missing(*o),
{
    match o {
        Some(s) => chars_of(s.as_str()).len() == 0,
        None => true,
    }
}

impl ConfigFile {
    /// The first required field, in the order server, user, password, that
    /// is absent or empty; none when all three are given.
    pub fn next_missing(&self) -> (r: Option<RequiredField>)
        ensures
            r == if missing(self.server_url) {
                Some(RequiredField::ServerUrl)
            } else if missing(self.username) {
                Some(RequiredField::Username)
            } else if missing(self.password) {
                Some(RequiredField::Password)
            } else {
                None::<RequiredField>
            },
    {
        if is_missing(&self.server_url) {
            Some(RequiredField::ServerUrl)
        } else if is_missing(&self.username) {
            Some(RequiredField::Username)
        } else if is_missing(&self.password) {
            Some(RequiredField::Password)
        } else {
            None
        }
    }

    /// Sets one required field; the others are kept.
    pub fn fill(&mut self, field: RequiredField, value: String)
        ensures
            final(self).server_url == if field == RequiredField::ServerUrl {
                Some(value)
            } else {
                old(self).server_url
            },
            final(self).username == if field == RequiredField::Username {
                Some(value)
            } else {
                old(self).username
            },
            final(self).password == if field == RequiredField::Password {
                Some(value)
            } else {
                old(self).password
            },
            final(self).api_version == old(self).api_version,
            final(self).client_name == old(self).client_name,
            final(self).endpoint_suffix == old(self).endpoint_suffix,
            final(self).tls_verify == old(self).tls_verify,
            final(self).max_shuffle == old(self).max_shuffle,
            final(self).volume_step == old(self).volume_step,
            final(self).end_grace_ms == old(self).end_grace_ms,
    {
        match field {
            RequiredField::ServerUrl => self.server_url = Some(value),
            RequiredField::Username => self.username = Some(value),
            RequiredField::Password => self.password = Some(value),
        }
    }
}

fn text_or_default(o: Option<String>, d: &str) -> (r: String)
    ensures
        r@ == text_or(o, d@),
{
    match o {
        Some(s) => s,
        None => d.to_string(),
    }
}

impl Config {
    /// The settings a stored file gives, each absent field taking its
    /// default; the server address is normalized.
    pub fn from_file(file: ConfigFile) -> (r: Self)
        ensures
            r.server_url@ == normalized_url(text_or(file.server_url, Seq::empty())),
            r.username@ == text_or(file.username, Seq::empty()),
            r.password@ == text_or(file.password, Seq::empty()),
            r.api_version@ == text_or(file.api_version, DEFAULT_API_VERSION@),
            r.client_name@ == text_or(file.client_name, DEFAULT_CLIENT_NAME@),
            r.endpoint_suffix@ == text_or(file.endpoint_suffix, DEFAULT_ENDPOINT_SUFFIX@),
            r.tls_verify == match file.tls_verify {
                Some(b) => b,
                None => true,
            },
            r.max_shuffle == match file.max_shuffle {
                Some(n) => n,
                None => DEFAULT_MAX_SHUFFLE,
            },
            r.volume_step == match file.volume_step {
                Some(n) => n,
                None => DEFAULT_VOLUME_STEP,
            },
            r.end_grace_ms == match file.end_grace_ms {
                Some(n) => n,
                None => DEFAULT_END_GRACE_MS,
            },
    {
        proof {
            reveal_strlit("");
        }
        let url = text_or_default(file.server_url, "");
        Config {
            server_url: normalize_url(url.as_str()),
            username: text_or_default(file.username, ""),
            password: text_or_default(file.password, ""),
            api_version: text_or_default(file.api_version, DEFAULT_API_VERSION),
            client_name: text_or_default(file.client_name, DEFAULT_CLIENT_NAME),
            endpoint_suffix: text_or_default(file.endpoint_suffix, DEFAULT_ENDPOINT_SUFFIX),
            tls_verify: match file.tls_verify {
                Some(b) => b,
                None => true,
            },
            max_shuffle: match file.max_shuffle {
                Some(n) => n,
                None => DEFAULT_MAX_SHUFFLE,
            },
            volume_step: match file.volume_step {
                Some(n) => n,
                None => DEFAULT_VOLUME_STEP,
            },
            end_grace_ms: match file.end_grace_ms {
                Some(n) => n,
                None => DEFAULT_END_GRACE_MS,
            },
        }
    }

    /// The stored form of these settings, every field present.
    pub fn to_file(&self) -> (r: ConfigFile)
        ensures
            r.server_url == Some(self.server_url),
            r.username == Some(self.username),
            r.password == Some(self.password),
            r.api_version == Some(self.api_version),
            r.client_name == Some(self.client_name),
            r.endpoint_suffix == Some(self.endpoint_suffix),
            r.tls_verify == Some(self.tls_verify),
            r.max_shuffle == Some(self.max_shuffle),
            r.volume_step == Some(self.volume_step),
            r.end_grace_ms == Some(self.end_grace_ms),
    {
        ConfigFile {
            server_url: Some(self.server_url.clone()),
            username: Some(self.username.clone()),
            password: Some(self.password.clone()),
            api_version: Some(self.api_version.clone()),
            client_name: Some(self.client_name.clone()),
            endpoint_suffix: Some(self.endpoint_suffix.clone()),
            tls_verify: Some(self.tls_verify),
            max_shuffle: Some(self.max_shuffle),
            volume_step: Some(self.volume_step),
            end_grace_ms: Some(self.end_grace_ms),
        }
    }

    pub fn max_shuffle(&self) -> (r: usize)
        ensures
            r == self.max_shuffle,
    {
        self.max_shuffle
    }

    pub fn volume_step(&self) -> (r: u8)
        ensures
            r == self.volume_step,
    {
        self.volume_step
    }

    pub fn end_grace_ms(&self) -> (r: u64)
        ensures
            r == self.end_grace_ms,
    {
        self.end_grace_ms
    }
}

/// The answer to a prompt for a required value: the typed line without
/// surrounding white space, or none (ask again) when it is blank.
pub fn required_answer(input: &str) -> (r: Option<String>)
    ensures
        r matches Some(s) ==> has_visible(input@) && s@ == trimmed(input@),
        r is None ==> !has_visible(input@),
{
    let cs = chars_of(input);
    if has_visible_chars(&cs) {
        let t = trim_chars(&cs);
        Some(string_of(&t))
    } else {
        None
    }
}

/// The answer to a prompt that offers `current`: a blank line keeps
/// `current`; with nothing to keep, a required prompt asks again (none) and
/// an optional one gives the empty text; otherwise the line without
/// surrounding white space.
pub fn answer_or_default(input: &str, current: Option<&str>, required: bool) -> (r: Option<
    String,
>)
    ensures
        has_visible(input@) ==> (r matches Some(s) && s@ == trimmed(input@)),
        !has_visible(input@) ==> match current {
            Some(c) => (r matches Some(s) && s@ == c@),
            None => if required {
                r is None
            } else {
                (r matches Some(s) && s@.len() == 0)
            },
        },
{
    let cs = chars_of(input);
    if has_visible_chars(&cs) {
        let t = trim_chars(&cs);
        return Some(string_of(&t));
    }
    match current {
        Some(c) => Some(c.to_string()),
        None => if required {
            None
        } else {
            Some(String::new())
        },
    }
}

/// The answer to a password prompt: the line as typed; an empty one keeps
/// `current`, or asks again (none) when there is none.
pub fn password_answer(input: &str, current: Option<&str>) -> (r: Option<String>)
    ensures
        input@.len() > 0 ==> (r matches Some(s) && s@ == input@),
        input@.len() == 0 ==> match current {
            Some(c) => (r matches Some(s) && s@ == c@),
            None => r is None,
        },
{
    if chars_of(input).len() > 0 {
        Some(input.to_string())
    } else {
        match current {
            Some(c) => Some(c.to_string()),
            None => None,
        }
    }
}

/// `s` with every character lowercased.
pub open spec fn lowercased(s: Seq<char>) -> Seq<char>
    decreases s.len(),
{
    if s.len() == 0 {
        Seq::empty()
    } else {
        lowercased(s.drop_last()) + lowercase_of(s.last())
    }
}

/// The words that answer a yes/no prompt with yes.
pub open spec fn is_yes(s: Seq<char>) -> bool {
    s == "y"@ || s == "yes"@ || s == "true"@ || s == "1"@
}

fn lowercase_chars(v: &Vec<char>) -> (r: Vec<char>)
    ensures
        r@ == lowercased(v@),
{
    let mut out: Vec<char> = Vec::new();
    let mut i: usize = 0;
    while i < v.len()
        invariant
            i <= v.len(),
            out@ == lowercased(v@.subrange(0, i as int)),
        decreases v.len() - i,
    {
        assert(v@.subrange(0, i + 1).drop_last() == v@.subrange(0, i as int));
        let mut lc = crate::matching::lowercase_chars_of(v[i]);
        out.append(&mut lc);
        i = i + 1;
    }
    assert(v@.subrange(0, v.len() as int) == v@);
    out
}

/// The answer to a yes/no prompt: a blank line keeps `default`; otherwise
/// yes exactly for "y", "yes", "true" or "1", in any case.
pub fn bool_answer(input: &str, default: bool) -> (r: bool)
    ensures
        r == if !has_visible(input@) {
            default
        } else {
            is_yes(lowercased(trimmed(input@)))
        },
{
    let cs = chars_of(input);
    if !has_visible_chars(&cs) {
        return default;
    }
    let t = trim_chars(&cs);
    let low = lowercase_chars(&t);
    let w = string_of(&low);
    crate::text::text_is(w.as_str(), "y") || crate::text::text_is(w.as_str(), "yes")
        || crate::text::text_is(w.as_str(), "true") || crate::text::text_is(w.as_str(), "1")
}

/// The answer to a numeric prompt for a type whose largest value is `max`:
/// a blank line keeps `default`; otherwise the trimmed line must be a
/// number no larger than `max`, else the answer is refused (`Err`).
pub fn number_answer(input: &str, default: u64, max: u64) -> (r: Result<u64, ()>)
    ensures
        !has_visible(input@) ==> r == Ok::<u64, ()>(default),
        has_visible(input@) ==> match parse_unsigned(trimmed(input@), max as nat) {
            Some(n) => r == Ok::<u64, ()>(n as u64),
            None => r is Err,
        },
{
    let cs = chars_of(input);
    if !has_visible_chars(&cs) {
        return Ok(default);
    }
    let t = trim_chars(&cs);
    match parse_unsigned_chars(&t, max) {
        Some(n) => Ok(n),
        None => Err(()),
    }
}

} // verus!
