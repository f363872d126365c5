//! The outside HTTP header types (`http`, through `reqwest::header`), base64
//! encoding, and the trusted items that the verified header logic calls.

use vstd::prelude::*;
use vstd::string::*;
use crate::encoding::base64_encode;
use reqwest::header::{HeaderMap, HeaderName, HeaderValue, InvalidHeaderValue};

verus! {

#[verifier::external_type_specification]
#[verifier::external_body]
#[verifier::reject_recursive_types(T)]
pub struct ExHeaderMap<T>(HeaderMap<T>);

#[verifier::external_type_specification]
#[verifier::external_body]
pub struct ExHeaderName(HeaderName);

#[verifier::external_type_specification]
#[verifier::external_body]
pub struct ExHeaderValue(HeaderValue);

#[verifier::external_type_specification]
#[verifier::external_body]
pub struct ExInvalidHeaderValue(InvalidHeaderValue);

/// One item of a header map's consuming iterator.
pub type HeaderEntry = (Option<HeaderName>, HeaderValue);

/// The text of a header name, as `HeaderName::as_str` shows it (lower case).
pub uninterp spec fn header_name_str(name: HeaderName) -> Seq<char>;

/// The bytes of a header value, as `HeaderValue::as_bytes` shows them.
pub uninterp spec fn header_value_bytes(value: HeaderValue) -> Seq<u8>;

/// What a header map holds: each name it holds, mapped to all its values in
/// order (as `HeaderMap::get_all` yields them; the first is the one that
/// `HeaderMap::get` returns).
pub uninterp spec fn header_map_values(map: HeaderMap) -> Map<Seq<char>, Seq<Seq<u8>>>;


/// A byte that `HeaderValue::from_str` accepts: visible ASCII, a space, a
/// tab, or any byte above 127.
pub open spec fn is_header_value_byte(b: u8) -> bool {
    (b >= 32 && b != 127) || b == 9
}

/// Every byte of `bytes` is accepted in a header value.
pub open spec fn is_header_value(bytes: Seq<u8>) -> bool {
    forall|i: int| 0 <= i < bytes.len() ==> is_header_value_byte(#[trigger] bytes[i])
}

/// A byte that `HeaderValue::from_static` accepts: visible ASCII, a space or
/// a tab.
pub open spec fn is_visible_ascii_byte(b: u8) -> bool {
    (32 <= b && b < 127) || b == 9
}

/// `encode` computes its output length first and panics where it overflows
/// `usize`: four characters per started group of three bytes.
pub open spec fn base64_encodable_len(n: nat) -> bool {
    (n / 3) * 4 + (if n % 3 > 0 { 4int } else { 0int }) <= usize::MAX
}

/// `reqwest::header::CONTENT_TYPE`: the header name `content-type`.
#[verifier::external_body]
pub(crate) fn content_type_name() -> (name: HeaderName)
    ensures
        header_name_str(name) == "content-type"@,
{
    reqwest::header::CONTENT_TYPE
}

/// `reqwest::header::AUTHORIZATION`: the header name `authorization`.
#[verifier::external_body]
pub(crate) fn authorization_name() -> (name: HeaderName)
    ensures
        header_name_str(name) == "authorization"@,
{
    reqwest::header::AUTHORIZATION
}

/// `HeaderValue::from_static`: a value holding exactly the bytes of `src`.
/// It panics on any other byte than visible ASCII, a space or a tab, which
/// `requires` rules out.
#[verifier::external_body]
pub(crate) fn header_value_from_static(src: &'static str) -> (value: HeaderValue)
    requires
        forall|i: int|
            0 <= i < src.spec_bytes().len() ==> is_visible_ascii_byte(
                #[trigger] src.spec_bytes()[i],
            ),
    ensures
        header_value_bytes(value) == src.spec_bytes(),
{
    HeaderValue::from_static(src)
}

/// `HeaderValue::from_str`: succeeds exactly when every byte of `src` is a
/// valid header value byte, and then holds exactly those bytes.
#[verifier::external_body]
pub(crate) fn header_value_from_str(src: &str) -> (res: Result<HeaderValue, InvalidHeaderValue>)
    ensures
        res is Ok <==> is_header_value(src.spec_bytes()),
        res matches Ok(value) ==> header_value_bytes(value) == src.spec_bytes(),
{
    HeaderValue::from_str(src)
}

/// `HeaderMap::new`: an empty map.
#[verifier::external_body]
pub(crate) fn header_map_new() -> (headers: HeaderMap)
    ensures
        header_map_values(headers) =~= Map::empty(),
{
    HeaderMap::new()
}

/// The fewest names at which `HeaderMap::insert` can panic.
pub open spec fn header_map_insert_limit() -> nat {
    6554
}

/// `HeaderMap::insert`: the name now holds this value alone; other names
/// keep theirs. `insert` panics when its index table would grow beyond 2^15
/// slots. A table of that size grows only once it holds a fifth as many
/// names as slots (6554) or, with few collisions, three quarters, so below
/// 6554 names `insert` cannot panic; `requires` asks for that.
#[verifier::external_body]
pub(crate) fn header_map_insert(map: &mut HeaderMap, name: HeaderName, value: HeaderValue)
    requires
        header_map_values(*old(map)).dom().finite(),
        header_map_values(*old(map)).dom().len() < header_map_insert_limit(),
    ensures
        header_map_values(*final(map)) == header_map_values(*old(map)).insert(
            header_name_str(name),
            seq![header_value_bytes(value)],
        ),
{
    map.insert(name, value);
}

/// `HeaderMap`'s consuming iterator, collected: each name of the map comes
/// once with `Some(name)` and its first value; every further value of a name
/// comes with `None`. The order of names is left open, and nothing is said
/// here of the items that come with `None`.
#[verifier::external_body]
pub(crate) fn header_map_entries(map: HeaderMap) -> (entries: Vec<HeaderEntry>)
    ensures
        forall|i: int|
            #![trigger entries@[i]]
            0 <= i < entries@.len() && entries@[i].0 is Some ==> {
                &&& header_map_values(map).dom().contains(header_name_str(entries@[i].0->0))
                &&& header_map_values(map)[header_name_str(entries@[i].0->0)].len() > 0
                &&& header_map_values(map)[header_name_str(entries@[i].0->0)][0]
                    == header_value_bytes(entries@[i].1)
            },
        forall|i: int|
            #![trigger entries@[i]]
            0 <= i < entries@.len() && entries@[i].0 is Some ==> forall|j: int|
                #![trigger entries@[j]]
                0 <= j < entries@.len() && j != i && entries@[j].0 is Some ==> header_name_str(entries@[i].0->0) != header_name_str(entries@[j].0->0),
        forall|name: Seq<char>|
            #![trigger header_map_values(map).dom().contains(name)]
            header_map_values(map).dom().contains(name) ==> exists|i: int|
                0 <= i < entries@.len() && entries@[i].0 is Some && header_name_str(#[trigger] entries@[i].0->0) == name,
{
    map.into_iter().collect()
}

/// `base64::engine::general_purpose::STANDARD.encode`: the padded standard
/// base64 text of the bytes (the engine of the standard alphabet with the
/// `PAD` configuration).
#[verifier::external_body]
pub(crate) fn base64_encode_standard(input: &[u8]) -> (encoded: String)
    requires
        base64_encodable_len(input@.len()),
    ensures
        encoded@ == base64_encode(input@),
{
    base64::Engine::encode(&base64::engine::general_purpose::STANDARD, input)
}

} // verus!
