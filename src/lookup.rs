use vstd::prelude::*;

use crate::decode::{decode_ip_info, decode_ip_infos, ip_info_of, ip_infos_of, member};
use crate::json::{parse_json, parsed_json, JsonValue};
use crate::record::IPInfo;

verus! {

/// Why a lookup failed.
#[derive(Debug, Clone, Copy, PartialEq, Eq, Structural)]
pub enum LookupError {
    /// The request could not be sent or no response came back.
    Network,
    /// A response came back, but its body does not have the expected shape.
    Decode,
}

/// What one request brought back: nothing, or the whole body as text.
#[derive(Debug, Clone, PartialEq, Eq)]
pub enum Reply {
    Unreachable,
    Body(String),
}

/// The result of decoding a body parsed as `doc` into the record of one address.
pub open spec fn single_result(doc: Option<JsonValue>) -> Result<IPInfo, LookupError> {
    match doc {
        Some(v) => match ip_info_of(v) {
            Some(info) => Ok(info),
            None => Err(LookupError::Decode),
        },
        None => Err(LookupError::Decode),
    }
}

/// The result of decoding a body parsed as `doc` into an ordered list of records.
pub open spec fn bulk_result(doc: Option<JsonValue>) -> Result<Seq<IPInfo>, LookupError> {
    match doc {
        Some(v) => match ip_infos_of(v) {
            Some(infos) => Ok(infos),
            None => Err(LookupError::Decode),
        },
        None => Err(LookupError::Decode),
    }
}

/// The outcome of a lookup of one address, given what its request brought back.
pub open spec fn single_outcome(reply: Reply) -> Result<IPInfo, LookupError> {
    match reply {
        Reply::Unreachable => Err(LookupError::Network),
        Reply::Body(body) => single_result(parsed_json(body@)),
    }
}

/// The outcome of a lookup of several addresses, given what its request brought back.
pub open spec fn bulk_outcome(reply: Reply) -> Result<Seq<IPInfo>, LookupError> {
    match reply {
        Reply::Unreachable => Err(LookupError::Network),
        Reply::Body(body) => bulk_result(parsed_json(body@)),
    }
}

/// The outcome of the lookup of the caller's own address: the body, verbatim.
pub open spec fn own_ip_outcome(reply: Reply) -> Result<String, LookupError> {
    match reply {
        Reply::Unreachable => Err(LookupError::Network),
        Reply::Body(body) => Ok(body),
    }
}

/// Decodes a response body into the record of one address.
pub fn ip_info_from_body(body: &str) -> (r: Result<IPInfo, LookupError>)
    ensures
        r == single_result(parsed_json(body@)),
{
    match parse_json(body) {
        Some(doc) => match decode_ip_info(&doc) {
            Some(info) => Ok(info),
            None => Err(LookupError::Decode),
        },
        None => Err(LookupError::Decode),
    }
}

/// Decodes a response body into the records of several addresses, in the
/// order the body lists them.
pub fn ip_infos_from_body(body: &str) -> (r: Result<Vec<IPInfo>, LookupError>)
    ensures
        match r {
            Ok(infos) => bulk_result(parsed_json(body@)) == Ok::<Seq<IPInfo>, LookupError>(infos@),
            Err(e) => bulk_result(parsed_json(body@)) == Err::<Seq<IPInfo>, LookupError>(e),
        },
{
    match parse_json(body) {
        Some(doc) => match decode_ip_infos(&doc) {
            Some(infos) => Ok(infos),
            None => Err(LookupError::Decode),
        },
        None => Err(LookupError::Decode),
    }
}

/// Settles a lookup of one address from what its request brought back.
pub fn single_lookup_result(reply: Reply) -> (r: Result<IPInfo, LookupError>)
    ensures
        r == single_outcome(reply),
{
    match reply {
        Reply::Unreachable => Err(LookupError::Network),
        Reply::Body(body) => ip_info_from_body(body.as_str()),
    }
}

/// Settles a lookup of several addresses from what its request brought back.
pub fn bulk_lookup_result(reply: Reply) -> (r: Result<Vec<IPInfo>, LookupError>)
    ensures
        match r {
            Ok(infos) => bulk_outcome(reply) == Ok::<Seq<IPInfo>, LookupError>(infos@),
            Err(e) => bulk_outcome(reply) == Err::<Seq<IPInfo>, LookupError>(e),
        },
{
    match reply {
        Reply::Unreachable => Err(LookupError::Network),
        Reply::Body(body) => ip_infos_from_body(body.as_str()),
    }
}

/// Settles the lookup of the caller's own address: the body is the answer, as it came.
pub fn own_ip_result(reply: Reply) -> (r: Result<String, LookupError>)
    ensures
        r == own_ip_outcome(reply),
{
    match reply {
        Reply::Unreachable => Err(LookupError::Network),
        Reply::Body(body) => Ok(body),
    }
}

proof fn lemma_member_absent(entries: Seq<(String, JsonValue)>, key: Seq<char>)
    requires
        forall|i: int| 0 <= i < entries.len() ==> (#[trigger] entries[i]).0@ != key,
    ensures
        member(entries, key) is None,
    decreases entries.len(),
{
    if entries.len() > 0 {
        let rest = entries.drop_first();
        assert(entries[0].0@ != key);
        assert forall|i: int| 0 <= i < rest.len() implies (#[trigger] rest[i]).0@ != key by {
            assert(rest[i] == entries[i + 1]);
        }
        lemma_member_absent(rest, key);
    }
}

/// An object whose `ip` member is a string and that has no `isp`, `location`
/// or `risk` member at all still decodes, with those three fields absent.
pub proof fn lemma_missing_optional_members_decode(entries: Vec<(String, JsonValue)>, ip: String)
    requires
        member(entries@, "ip"@) == Some(JsonValue::Str(ip)),
        forall|i: int|
            0 <= i < entries@.len() ==> {
                let k = (#[trigger] entries@[i]).0@;
                k != "isp"@ && k != "location"@ && k != "risk"@
            },
    ensures
        ip_info_of(JsonValue::Object(entries)) == Some(
            (IPInfo { ip, isp: None, location: None, risk: None }),
        ),
        single_result(Some(JsonValue::Object(entries))) == Ok::<IPInfo, LookupError>(
            (IPInfo { ip, isp: None, location: None, risk: None }),
        ),
{
    lemma_member_absent(entries@, "isp"@);
    lemma_member_absent(entries@, "location"@);
    lemma_member_absent(entries@, "risk"@);
}

/// An object without an `ip` member does not decode: the lookup fails with a
/// decode error.
pub proof fn lemma_missing_ip_fails(entries: Vec<(String, JsonValue)>)
    requires
        forall|i: int| 0 <= i < entries@.len() ==> (#[trigger] entries@[i]).0@ != "ip"@,
    ensures
        ip_info_of(JsonValue::Object(entries)) is None,
        single_result(Some(JsonValue::Object(entries))) == Err::<IPInfo, LookupError>(
            LookupError::Decode,
        ),
{
    lemma_member_absent(entries@, "ip"@);
}

/// A decoded record carries the address exactly as the `ip` member holds it.
pub proof fn lemma_decoded_ip_is_echoed(entries: Vec<(String, JsonValue)>, ip: String)
    requires
        member(entries@, "ip"@) == Some(JsonValue::Str(ip)),
        ip_info_of(JsonValue::Object(entries)) is Some,
    ensures
        ip_info_of(JsonValue::Object(entries))->0.ip == ip,
{
}

/// When a request brings nothing back, every kind of lookup fails with a
/// network error, never a decode error.
pub proof fn lemma_unreachable_is_network_error()
    ensures
        single_outcome(Reply::Unreachable) == Err::<IPInfo, LookupError>(LookupError::Network),
        bulk_outcome(Reply::Unreachable) == Err::<Seq<IPInfo>, LookupError>(LookupError::Network),
        own_ip_outcome(Reply::Unreachable) == Err::<String, LookupError>(LookupError::Network),
{
}

} // verus!
