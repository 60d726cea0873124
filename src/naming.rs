//! Fresh storage keys for uploaded and duplicated assets.
use vstd::prelude::*;

use rand::Rng;
use vstd::string::StringExecFns;

verus! {

/// Number of random characters in a generated key.
pub const RANDOM_LEN: usize = 40;

pub open spec fn is_alphanumeric(c: char) -> bool {
    ('a' <= c && c <= 'z') || ('A' <= c && c <= 'Z') || ('0' <= c && c <= '9')
}

/// Relies on `rand::thread_rng` sampling `rand::distributions::Alphanumeric`:
/// `len` characters, each an ASCII letter or digit.
#[verifier::external_body]
fn random_alphanumeric(len: usize) -> (r: String)
    ensures
        r@.len() == len,
        forall|i: int| 0 <= i < len ==> is_alphanumeric(#[trigger] r@[i]),
{
    rand::thread_rng().sample_iter(&rand::distributions::Alphanumeric).take(len).map(char::from).collect()
}

/// Relies on `chrono::Utc::now`: the current time in whole seconds since the
/// Unix epoch.
#[verifier::external_body]
fn unix_now() -> i64 {
    chrono::Utc::now().timestamp()
}

pub open spec fn digit(d: nat) -> char {
    seq!['0', '1', '2', '3', '4', '5', '6', '7', '8', '9'][d as int]
}

/// The decimal digits of `n`, most significant first.
pub open spec fn decimal(n: nat) -> Seq<char>
    decreases n,
{
    if n < 10 {
        seq![digit(n)]
    } else {
        decimal(n / 10).push(digit(n % 10))
    }
}

/// The decimal form of `n`, with a leading minus sign when negative.
pub open spec fn signed_decimal(n: int) -> Seq<char> {
    if n < 0 {
        seq!['-'] + decimal((-n) as nat)
    } else {
        decimal(n as nat)
    }
}

fn digit_str(d: u64) -> (r: &'static str)
    requires
        d < 10,
    ensures
        r@ == seq![digit(d as nat)],
{
    match d {
        0 => { proof { reveal_strlit("0"); } "0" },
        1 => { proof { reveal_strlit("1"); } "1" },
        2 => { proof { reveal_strlit("2"); } "2" },
        3 => { proof { reveal_strlit("3"); } "3" },
        4 => { proof { reveal_strlit("4"); } "4" },
        5 => { proof { reveal_strlit("5"); } "5" },
        6 => { proof { reveal_strlit("6"); } "6" },
        7 => { proof { reveal_strlit("7"); } "7" },
        8 => { proof { reveal_strlit("8"); } "8" },
        _ => { proof { reveal_strlit("9"); } "9" },
    }
}

fn append_decimal(s: &mut String, n: u64)
    ensures
        final(s)@ == old(s)@ + decimal(n as nat),
    decreases n,
{
    if n >= 10 {
        append_decimal(s, n / 10);
    }
    s.append(digit_str(n % 10));
    assert(final(s)@ =~= old(s)@ + decimal(n as nat));
}

/// The key `<timestamp>_<random>.kml`.
pub fn asset_name(timestamp: i64, random: &String) -> (r: String)
    ensures
        r@ == signed_decimal(timestamp as int) + "_"@ + random@ + ".kml"@,
{
    let mut s = String::new();
    if timestamp < 0 {
        s.append("-");
        let magnitude: u64 = if timestamp == i64::MIN {
            (i64::MAX as u64) + 1
        } else {
            (-timestamp) as u64
        };
        append_decimal(&mut s, magnitude);
        proof {
            reveal_strlit("-");
            assert(s@ =~= signed_decimal(timestamp as int));
        }
    } else {
        append_decimal(&mut s, timestamp as u64);
        assert(s@ =~= signed_decimal(timestamp as int));
    }
    s.append("_");
    s.append(random.as_str());
    s.append(".kml");
    s
}

/// A fresh key for an asset: the current time and random letters and digits.
pub fn generate_asset_name() -> (r: String)
    ensures
        exists|t: i64, x: Seq<char>|
            {
                &&& x.len() == RANDOM_LEN
                &&& forall|i: int| 0 <= i < x.len() ==> is_alphanumeric(#[trigger] x[i])
                &&& r@ == signed_decimal(t as int) + "_"@ + x + ".kml"@
            },
{
    let t = unix_now();
    let x = random_alphanumeric(RANDOM_LEN);
    asset_name(t, &x)
}

/// Fresh keys, one for each of `n` assets.
pub fn generate_asset_names(n: usize) -> (r: Vec<String>)
    ensures
        r@.len() == n,
{
    let mut r: Vec<String> = Vec::new();
    let mut i: usize = 0;
    while i < n
        invariant
            0 <= i <= n,
            r@.len() == i,
        decreases n - i,
    {
        r.push(generate_asset_name());
        i = i + 1;
    }
    r
}

} // verus!
