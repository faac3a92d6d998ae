//! The client side: which control request the command-line switches ask for.

use vstd::prelude::*;
use crate::protocol::Request;
use crate::text::{chars_of, string_of};

verus! {

/// The switches of the command line, one field per switch.
#[derive(Debug)]
pub struct Cli {
    pub daemon: bool,
    pub configure: bool,
    pub shuffle: bool,
    pub pause: bool,
    pub play: bool,
    pub fastforward: bool,
    pub rewind: bool,
    pub startover: bool,
    pub likesong: bool,
    pub unlikesong: bool,
    pub rate: Option<u8>,
    pub volumeup: bool,
    pub volumedown: bool,
    pub shuffleliked: bool,
    pub status: bool,
    pub shuffleartist: Option<String>,
    pub shufflealbum: Option<String>,
    pub shuffleplaylist: Option<String>,
    pub playalbum: Option<String>,
    pub addsongtoplaylist: Option<String>,
    pub deleteplaylist: Option<String>,
    pub api: Option<String>,
    pub param: Vec<String>,
}

/// Why the switches do not make one request.
#[derive(Debug, PartialEq, Eq, Clone, Copy)]
pub enum CliError {
    /// `rate` was given a value outside 1 to 5.
    RatingOutOfRange,
    /// More than one action was asked for.
    TooManyActions,
}

impl CliError {
    /// The text reported to the user.
    pub fn message(&self) -> (r: &'static str)
        ensures
            r@ == match self {
                CliError::RatingOutOfRange => "Rating must be between 1 and 5"@,
                CliError::TooManyActions => "Only one action can be specified at a time"@,
            },
    {
        match self {
            CliError::RatingOutOfRange => "Rating must be between 1 and 5",
            CliError::TooManyActions => "Only one action can be specified at a time",
        }
    }
}

/// A request as text: the command and its argument.
pub type RequestText = (Seq<char>, Option<Seq<char>>);

pub open spec fn request_text(r: Request) -> RequestText {
    (
        r.cmd@,
        match r.arg {
            Some(a) => Some(a@),
            None => None,
        },
    )
}

/// The decimal digits of `n`, most significant first.
pub open spec fn decimal(n: nat) -> Seq<char>
    decreases n,
{
    if n < 10 {
        seq![(n + '0' as nat) as char]
    } else {
        decimal(n / 10).push(((n % 10) + '0' as nat) as char)
    }
}

/// `n` written in decimal.
pub fn decimal_text(n: u8) -> (r: String)
    ensures
        r@ == decimal(n as nat),
{
    let mut digits: Vec<char> = Vec::new();
    let mut m: u8 = n;
    let mut rest: Vec<char> = Vec::new();
    if m >= 100 {
        digits.push(((m / 100) + 48) as char);
        m = m % 100;
        digits.push(((m / 10) + 48) as char);
        digits.push(((m % 10) + 48) as char);
    } else if m >= 10 {
        digits.push(((m / 10) + 48) as char);
        digits.push(((m % 10) + 48) as char);
    } else {
        digits.push((m + 48) as char);
    }
    proof {
        let k = n as nat;
        if k >= 100 {
            assert(decimal(k) == decimal(k / 10).push(((k % 10) + '0' as nat) as char));
            assert(decimal(k / 10) == decimal(k / 100).push((((k / 10) % 10) + '0' as nat) as char));
            assert(decimal(k / 100) == seq![((k / 100) + '0' as nat) as char]);
            assert(k / 10 % 10 == (k % 100) / 10);
        } else if k >= 10 {
            assert(decimal(k) == decimal(k / 10).push(((k % 10) + '0' as nat) as char));
            assert(decimal(k / 10) == seq![((k / 10) + '0' as nat) as char]);
        }
        assert(digits@ =~= decimal(k));
    }
    string_of(&digits)
}

#[verifier::opaque]
pub open spec fn flag(on: bool, cmd: Seq<char>) -> Seq<RequestText> {
    if on {
        seq![(cmd, None::<Seq<char>>)]
    } else {
        Seq::empty()
    }
}

#[verifier::opaque]
pub open spec fn named(arg: Option<String>, cmd: Seq<char>) -> Seq<RequestText> {
    match arg {
        Some(a) => seq![(cmd, Some(a@))],
        None => Seq::empty(),
    }
}

#[verifier::opaque]
pub open spec fn rated(rate: Option<u8>) -> Seq<RequestText> {
    match rate {
        Some(r) => seq![("rate"@, Some(decimal(r as nat)))],
        None => Seq::empty(),
    }
}

/// The requests the switches ask for, in the order they are examined.
#[verifier::opaque]
pub open spec fn asked(cli: Cli) -> Seq<RequestText> {
    flag(cli.shuffle, "shuffle"@) + flag(cli.pause, "pause"@) + flag(cli.play, "play"@) + flag(
        cli.fastforward,
        "fastforward"@,
    ) + flag(cli.rewind, "rewind"@) + flag(cli.startover, "startover"@) + flag(
        cli.likesong,
        "likesong"@,
    ) + flag(cli.unlikesong, "unlikesong"@) + rated(cli.rate) + flag(cli.volumeup, "volumeup"@) + flag(cli.volumedown, "volumedown"@) + flag(
        cli.shuffleliked,
        "shuffleliked"@,
    ) + flag(cli.status, "status"@) + named(cli.shuffleartist, "shuffleartist"@) + named(
        cli.shufflealbum,
        "shufflealbum"@,
    ) + named(cli.shuffleplaylist, "shuffleplaylist"@) + named(cli.playalbum, "playalbum"@)
        + named(cli.addsongtoplaylist, "addsongtoplaylist"@) + named(
        cli.deleteplaylist,
        "deleteplaylist"@,
    )
}

/// The requests of `v` as text.
pub open spec fn texts(v: Seq<Request>) -> Seq<RequestText> {
    v.map_values(|r: Request| request_text(r))
}

fn push_flag(requests: &mut Vec<Request>, on: bool, cmd: &str)
    ensures
        texts(final(requests)@) == texts(old(requests)@) + flag(on, cmd@),
{
    reveal(flag);
    let ghost before = requests@;
    if on {
        requests.push(Request::new(cmd, None));
        assert(texts(requests@) =~= texts(before) + flag(on, cmd@));
    } else {
        assert(texts(requests@) =~= texts(before) + flag(on, cmd@));
    }
}

fn push_named(requests: &mut Vec<Request>, arg: &Option<String>, cmd: &str)
    ensures
        texts(final(requests)@) == texts(old(requests)@) + named(*arg, cmd@),
{
    reveal(named);
    let ghost before = requests@;
    match arg {
        Some(a) => {
            requests.push(Request::new(cmd, Some(a.clone())));
        },
        None => {},
    }
    assert(texts(requests@) =~= texts(before) + named(*arg, cmd@));
}

/// The one request the switches ask for, if any. A rating outside 1 to 5
/// is refused first; then more than one action is refused.
pub fn build_request(cli: &Cli) -> (r: Result<Option<Request>, CliError>)
    ensures
        (cli.rate matches Some(n) && !(1 <= n <= 5)) ==> r == Err::<Option<Request>, CliError>(
            CliError::RatingOutOfRange,
        ),
        !(cli.rate matches Some(n) && !(1 <= n <= 5)) ==> {
            if asked(*cli).len() > 1 {
                r == Err::<Option<Request>, CliError>(CliError::TooManyActions)
            } else if asked(*cli).len() == 1 {
                r matches Ok(Some(q)) && request_text(q) == asked(*cli)[0]
            } else {
                r matches Ok(None)
            }
        },
{
    let mut requests: Vec<Request> = Vec::new();
    assert(texts(requests@) =~= Seq::<RequestText>::empty());
    push_flag(&mut requests, cli.shuffle, "shuffle");
    assert(texts(requests@) =~= flag(cli.shuffle, "shuffle"@));
    push_flag(&mut requests, cli.pause, "pause");
    push_flag(&mut requests, cli.play, "play");
    push_flag(&mut requests, cli.fastforward, "fastforward");
    push_flag(&mut requests, cli.rewind, "rewind");
    push_flag(&mut requests, cli.startover, "startover");
    push_flag(&mut requests, cli.likesong, "likesong");
    push_flag(&mut requests, cli.unlikesong, "unlikesong");
    if let Some(rating) = cli.rate {
        if !(1 <= rating && rating <= 5) {
            return Err(CliError::RatingOutOfRange);
        }
        let ghost before = requests@;
        requests.push(Request::new("rate", Some(decimal_text(rating))));
        assert(texts(requests@) =~= texts(before) + rated(cli.rate)) by {
            reveal(rated);
        }
    } else {
        assert(texts(requests@) =~= texts(requests@) + rated(cli.rate)) by {
            reveal(rated);
        }
    }
    push_flag(&mut requests, cli.volumeup, "volumeup");
    push_flag(&mut requests, cli.volumedown, "volumedown");
    push_flag(&mut requests, cli.shuffleliked, "shuffleliked");
    push_flag(&mut requests, cli.status, "status");
    push_named(&mut requests, &cli.shuffleartist, "shuffleartist");
    push_named(&mut requests, &cli.shufflealbum, "shufflealbum");
    push_named(&mut requests, &cli.shuffleplaylist, "shuffleplaylist");
    push_named(&mut requests, &cli.playalbum, "playalbum");
    push_named(&mut requests, &cli.addsongtoplaylist, "addsongtoplaylist");
    push_named(&mut requests, &cli.deleteplaylist, "deleteplaylist");
    assert(texts(requests@) == asked(*cli)) by {
        reveal(asked);
    }
    assert(requests@.len() == asked(*cli).len());
    if requests.len() > 1 {
        return Err(CliError::TooManyActions);
    }
    let r = requests.pop();
    proof {
        if asked(*cli).len() == 1 {
            assert(asked(*cli)[0] == request_text(r->0));
        }
    }
    Ok(r)
}

/// A `key=value` parameter split at its first `'='`; refused (none) when
/// there is no `'='` or either side is empty.
pub fn split_param(param: &str) -> (r: Option<(String, String)>)
    ensures
        r matches Some((k, v)) ==> exists|i: int|
            0 < i < param@.len() - 1 && param@[i] == '=' && (forall|j: int|
                0 <= j < i ==> param@[j] != '=') && k@ == param@.subrange(0, i) && v@
                == param@.subrange(i + 1, param@.len() as int),
        r is None ==> forall|i: int|
            0 <= i < param@.len() && param@[i] == '=' && (forall|j: int|
                0 <= j < i ==> param@[j] != '=') ==> i == 0 || i == param@.len() - 1,
{
    let cs = chars_of(param);
    let mut i: usize = 0;
    while i < cs.len() && cs[i] != '='
        invariant
            i <= cs.len(),
            cs@ == param@,
            forall|j: int| 0 <= j < i ==> cs@[j] != '=',
        decreases cs.len() - i,
    {
        i = i + 1;
    }
    if i == cs.len() || i == 0 || i + 1 == cs.len() {
        return None;
    }
    let mut key: Vec<char> = Vec::new();
    let mut j: usize = 0;
    while j < i
        invariant
            j <= i < cs.len(),
            key@ == cs@.subrange(0, j as int),
        decreases i - j,
    {
        key.push(cs[j]);
        assert(cs@.subrange(0, j + 1) == cs@.subrange(0, j as int).push(cs@[j as int]));
        j = j + 1;
    }
    let mut value: Vec<char> = Vec::new();
    let mut k: usize = i + 1;
    while k < cs.len()
        invariant
            i + 1 <= k <= cs.len(),
            value@ == cs@.subrange(i + 1, k as int),
        decreases cs.len() - k,
    {
        value.push(cs[k]);
        assert(cs@.subrange(i + 1, k + 1) == cs@.subrange(i + 1, k as int).push(cs@[k as int]));
        k = k + 1;
    }
    Some((string_of(&key), string_of(&value)))
}

} // verus!
