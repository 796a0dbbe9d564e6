//! Stand-ins for password hashing and token generation. Neither is a
//! security primitive: the "hash" is the password behind a prefix, the token
//! a prefix before the time in seconds.

use vstd::prelude::*;
use vstd::string::StringExecFns;
use crate::clock::since_epoch;
use std::time::SystemTime;

verus! {

/// The decimal digit for `d`, where `d` is below ten.
pub open spec fn digit(d: nat) -> char {
    if d == 0 {
        '0'
    } else if d == 1 {
        '1'
    } else if d == 2 {
        '2'
    } else if d == 3 {
        '3'
    } else if d == 4 {
        '4'
    } else if d == 5 {
        '5'
    } else if d == 6 {
        '6'
    } else if d == 7 {
        '7'
    } else if d == 8 {
        '8'
    } else {
        '9'
    }
}

/// `n` written in decimal, without leading zeros.
pub open spec fn decimal(n: nat) -> Seq<char>
    decreases n,
{
    if n < 10 {
        seq![digit(n)]
    } else {
        decimal(n / 10).push(digit(n % 10))
    }
}

/// The "hash" of `password`: the password itself behind a fixed prefix.
pub open spec fn hashed(password: Seq<char>) -> Seq<char> {
    "hashed_"@ + password
}

/// The token for a time given in whole seconds since the Unix epoch.
pub open spec fn token_text(seconds: u64) -> Seq<char> {
    "token_"@ + decimal(seconds as nat)
}

/// The digit for `d` as a text of one character.
fn digit_text(d: u64) -> (text: &'static str)
    requires
        d < 10,
    ensures
        text@ == seq![digit(d as nat)],
{
    let text = match d {
        0 => "0",
        1 => "1",
        2 => "2",
        3 => "3",
        4 => "4",
        5 => "5",
        6 => "6",
        7 => "7",
        8 => "8",
        _ => "9",
    };
    proof {
        reveal_strlit("0");
        reveal_strlit("1");
        reveal_strlit("2");
        reveal_strlit("3");
        reveal_strlit("4");
        reveal_strlit("5");
        reveal_strlit("6");
        reveal_strlit("7");
        reveal_strlit("8");
        reveal_strlit("9");
        assert(text@ =~= seq![digit(d as nat)]);
    }
    text
}

/// Appends `n` in decimal to `out`, the leading digits first.
fn append_decimal(out: &mut String, n: u64)
    ensures
        final(out)@ == old(out)@ + decimal(n as nat),
    decreases n,
{
    if n >= 10 {
        append_decimal(out, n / 10);
    }
    out.append(digit_text(n % 10));
    proof {
        assert(out@ =~= old(out)@ + decimal(n as nat));
    }
}

/// Returns `password` behind the prefix `hashed_`, unchanged.
pub fn hash_password(password: &str) -> (hash: String)
    ensures
        hash@ == hashed(password@),
{
    String::from_str("hashed_").concat(password)
}

/// The token for the time `seconds`: the prefix `token_` and the number in
/// decimal.
pub fn token_for(seconds: u64) -> (token: String)
    ensures
        token@ == token_text(seconds),
{
    let mut token = String::from_str("token_");
    append_decimal(&mut token, seconds);
    token
}

/// The token for the clock's present reading, or `None` where the clock
/// stands before the Unix epoch.
pub fn generate_token() -> (token: Option<String>)
    ensures
        token matches Some(text) ==> exists|seconds: u64| text@ == token_text(seconds),
{
    let now = SystemTime::now();
    match since_epoch(&now) {
        Ok(elapsed) => Some(token_for(elapsed.as_secs())),
        Err(_) => None,
    }
}

} // verus!
