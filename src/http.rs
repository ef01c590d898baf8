//! The addresses that requests go to: `<base>/<endpoint>.json` for the lists and
//! `<base>/<endpoint>/<key>.json` for a single item or user.
use vstd::prelude::*;
use vstd::string::StringExecFns;

use crate::client::{ApiVersion, API_BASE_URL};

verus! {

/// The suffix of every endpoint path.
pub const JSON_SUFFIX: &'static str = ".json";

/// The separator between path segments.
pub const PATH_SEPARATOR: &'static str = "/";

/// The decimal digit for a value below ten.
pub open spec fn digit_char(d: nat) -> char {
    if d == 0 {
        '0'
    } else if d == 1 {
        '1'
    } else if d == 2 {
        '2'
    } else if d == 3 {
        '3'
    } else if d == 4 {
        '4'
    } else if d == 5 {
        '5'
    } else if d == 6 {
        '6'
    } else if d == 7 {
        '7'
    } else if d == 8 {
        '8'
    } else {
        '9'
    }
}

/// The decimal notation of a number: its digits, most significant first, without
/// sign or leading zeros.
pub open spec fn decimal_text(n: nat) -> Seq<char>
    decreases n,
{
    if n < 10 {
        seq![digit_char(n)]
    } else {
        decimal_text(n / 10) + seq![digit_char(n % 10)]
    }
}

/// The address of a list endpoint.
pub open spec fn endpoint_address(endpoint: Seq<char>) -> Seq<char> {
    API_BASE_URL@ + PATH_SEPARATOR@ + endpoint + JSON_SUFFIX@
}

/// The address of a single resource of an endpoint.
pub open spec fn resource_address(endpoint: Seq<char>, key: Seq<char>) -> Seq<char> {
    API_BASE_URL@ + PATH_SEPARATOR@ + endpoint + PATH_SEPARATOR@ + key + JSON_SUFFIX@
}

fn digit_str(d: u32) -> (r: &'static str)
    requires
        d < 10,
    ensures
        r@ == seq![digit_char(d as nat)],
{
    proof {
        reveal_strlit("0");
        reveal_strlit("1");
        reveal_strlit("2");
        reveal_strlit("3");
        reveal_strlit("4");
        reveal_strlit("5");
        reveal_strlit("6");
        reveal_strlit("7");
        reveal_strlit("8");
        reveal_strlit("9");
    }
    match d {
        0 => "0",
        1 => "1",
        2 => "2",
        3 => "3",
        4 => "4",
        5 => "5",
        6 => "6",
        7 => "7",
        8 => "8",
        _ => "9",
    }
}

/// The decimal notation of an ID, as it stands in a resource path.
pub fn id_text(id: u32) -> (r: String)
    ensures
        r@ == decimal_text(id as nat),
    decreases id,
{
    if id < 10 {
        String::from_str(digit_str(id))
    } else {
        let mut text = id_text(id / 10);
        text.append(digit_str(id % 10));
        text
    }
}

/// The address of a list endpoint, such as `topstories`.
pub fn endpoint_url(version: ApiVersion, endpoint: &str) -> (r: String)
    ensures
        r@ == endpoint_address(endpoint@),
{
    let mut url = String::from_str(version.base_url());
    url.append(PATH_SEPARATOR);
    url.append(endpoint);
    url.append(JSON_SUFFIX);
    url
}

/// The address of a single resource of an endpoint, such as an item by its ID or a
/// user by name.
pub fn resource_url(version: ApiVersion, endpoint: &str, key: &str) -> (r: String)
    ensures
        r@ == resource_address(endpoint@, key@),
{
    let mut url = String::from_str(version.base_url());
    url.append(PATH_SEPARATOR);
    url.append(endpoint);
    url.append(PATH_SEPARATOR);
    url.append(key);
    url.append(JSON_SUFFIX);
    url
}

} // verus!
