use vstd::prelude::*;

use crate::json::{JsonNumber, JsonValue};
use crate::record::{IPInfo, ISPInfo, LocationInfo, RiskInfo};

verus! {

/// The value of the first member of an object named `key`, if there is one.
pub open spec fn member(entries: Seq<(String, JsonValue)>, key: Seq<char>) -> Option<JsonValue>
    decreases entries.len(),
{
    if entries.len() == 0 {
        None
    } else if entries[0].0@ == key {
        Some(entries[0].1)
    } else {
        member(entries.drop_first(), key)
    }
}

/// An optional text field: absent or null gives `Some(None)`, a string gives
/// that string, anything else fails (`None`).
pub open spec fn text_slot(f: Option<JsonValue>) -> Option<Option<String>> {
    match f {
        None => Some(None),
        Some(JsonValue::Null) => Some(None),
        Some(JsonValue::Str(s)) => Some(Some(s)),
        Some(_) => None,
    }
}

/// An optional boolean field, read as `text_slot` reads text.
pub open spec fn flag_slot(f: Option<JsonValue>) -> Option<Option<bool>> {
    match f {
        None => Some(None),
        Some(JsonValue::Null) => Some(None),
        Some(JsonValue::Bool(b)) => Some(Some(b)),
        Some(_) => None,
    }
}

/// An optional byte-sized integer field: only a non-negative integer up to
/// 255 is accepted.
pub open spec fn score_slot(f: Option<JsonValue>) -> Option<Option<u8>> {
    match f {
        None => Some(None),
        Some(JsonValue::Null) => Some(None),
        Some(JsonValue::Number(JsonNumber::Unsigned(n))) => if n <= 255 {
            Some(Some(n as u8))
        } else {
            None
        },
        Some(_) => None,
    }
}

/// An optional numeric field: any number is accepted.
pub open spec fn number_slot(f: Option<JsonValue>) -> Option<Option<JsonNumber>> {
    match f {
        None => Some(None),
        Some(JsonValue::Null) => Some(None),
        Some(JsonValue::Number(n)) => Some(Some(n)),
        Some(_) => None,
    }
}

/// The ISP record an object describes, or `None` where a field has the wrong type.
pub open spec fn isp_info_of(v: JsonValue) -> Option<ISPInfo> {
    match v {
        JsonValue::Object(entries) => match (
            text_slot(member(entries@, "asn"@)),
            text_slot(member(entries@, "org"@)),
            text_slot(member(entries@, "isp"@)),
        ) {
            (Some(asn), Some(org), Some(isp)) => Some(ISPInfo { asn, org, isp }),
            _ => None,
        },
        _ => None,
    }
}

/// The location record an object describes, or `None` where a field has the wrong type.
pub open spec fn location_info_of(v: JsonValue) -> Option<LocationInfo> {
    match v {
        JsonValue::Object(entries) => match (
            text_slot(member(entries@, "country"@)),
            text_slot(member(entries@, "country_code"@)),
            text_slot(member(entries@, "city"@)),
            text_slot(member(entries@, "state"@)),
            text_slot(member(entries@, "zipcode"@)),
            number_slot(member(entries@, "latitude"@)),
            number_slot(member(entries@, "longitude"@)),
            text_slot(member(entries@, "timezone"@)),
            text_slot(member(entries@, "localtime"@)),
        ) {
            (
                Some(country),
                Some(country_code),
                Some(city),
                Some(state),
                Some(zipcode),
                Some(latitude),
                Some(longitude),
                Some(timezone),
                Some(localtime),
            ) => Some(
                LocationInfo {
                    country,
                    country_code,
                    city,
                    state,
                    zipcode,
                    latitude,
                    longitude,
                    timezone,
                    localtime,
                },
            ),
            _ => None,
        },
        _ => None,
    }
}

/// The risk record an object describes, or `None` where a field has the wrong type.
pub open spec fn risk_info_of(v: JsonValue) -> Option<RiskInfo> {
    match v {
        JsonValue::Object(entries) => match (
            flag_slot(member(entries@, "is_mobile"@)),
            flag_slot(member(entries@, "is_vpn"@)),
            flag_slot(member(entries@, "is_tor"@)),
            flag_slot(member(entries@, "is_proxy"@)),
            flag_slot(member(entries@, "is_datacenter"@)),
            score_slot(member(entries@, "risk_score"@)),
        ) {
            (
                Some(is_mobile),
                Some(is_vpn),
                Some(is_tor),
                Some(is_proxy),
                Some(is_datacenter),
                Some(risk_score),
            ) => Some(RiskInfo { is_mobile, is_vpn, is_tor, is_proxy, is_datacenter, risk_score }),
            _ => None,
        },
        _ => None,
    }
}

/// An optional nested ISP record: absent or null gives `Some(None)`.
pub open spec fn isp_slot(f: Option<JsonValue>) -> Option<Option<ISPInfo>> {
    match f {
        None => Some(None),
        Some(JsonValue::Null) => Some(None),
        Some(v) => match isp_info_of(v) {
            Some(r) => Some(Some(r)),
            None => None,
        },
    }
}

/// An optional nested location record: absent or null gives `Some(None)`.
pub open spec fn location_slot(f: Option<JsonValue>) -> Option<Option<LocationInfo>> {
    match f {
        None => Some(None),
        Some(JsonValue::Null) => Some(None),
        Some(v) => match location_info_of(v) {
            Some(r) => Some(Some(r)),
            None => None,
        },
    }
}

/// An optional nested risk record: absent or null gives `Some(None)`.
pub open spec fn risk_slot(f: Option<JsonValue>) -> Option<Option<RiskInfo>> {
    match f {
        None => Some(None),
        Some(JsonValue::Null) => Some(None),
        Some(v) => match risk_info_of(v) {
            Some(r) => Some(Some(r)),
            None => None,
        },
    }
}

/// The record of one address an object describes: `ip` must be a string,
/// the other members are optional; `None` where the object does not fit.
pub open spec fn ip_info_of(v: JsonValue) -> Option<IPInfo> {
    match v {
        JsonValue::Object(entries) => match (
            member(entries@, "ip"@),
            isp_slot(member(entries@, "isp"@)),
            location_slot(member(entries@, "location"@)),
            risk_slot(member(entries@, "risk"@)),
        ) {
            (Some(JsonValue::Str(ip)), Some(isp), Some(location), Some(risk)) => Some(
                IPInfo { ip, isp, location, risk },
            ),
            _ => None,
        },
        _ => None,
    }
}

/// The records an array describes, in its order, or `None` where the value is
/// not an array or one of its elements does not fit.
pub open spec fn ip_infos_of(v: JsonValue) -> Option<Seq<IPInfo>> {
    match v {
        JsonValue::Array(items) => if forall|i: int|
            0 <= i < items@.len() ==> (#[trigger] ip_info_of(items@[i])) is Some {
            Some(Seq::new(items@.len(), |i: int| ip_info_of(items@[i])->0))
        } else {
            None
        },
        _ => None,
    }
}

/// Finds the first member of an object named `key`.
fn find(entries: &Vec<(String, JsonValue)>, key: &str) -> (r: Option<usize>)
    ensures
        match r {
            Some(i) => i < entries@.len() && member(entries@, key@) == Some(entries@[i as int].1),
            None => member(entries@, key@) is None,
        },
{
    let wanted = String::from_str(key);
    let mut i: usize = 0;
    proof {
        assert(entries@.skip(0) =~= entries@);
    }
    while i < entries.len()
        invariant
            i <= entries@.len(),
            wanted@ == key@,
            member(entries@.skip(i as int), key@) == member(entries@, key@),
        decreases entries@.len() - i,
    {
        proof {
            assert(entries@.skip(i as int).drop_first() =~= entries@.skip(i as int + 1));
        }
        if entries[i].0 == wanted {
            return Some(i);
        }
        i = i + 1;
    }
    None
}

fn copy_number(n: &JsonNumber) -> (r: JsonNumber)
    ensures
        r == *n,
{
    match n {
        JsonNumber::Unsigned(u) => JsonNumber::Unsigned(*u),
        JsonNumber::Negative(i) => JsonNumber::Negative(*i),
        JsonNumber::Decimal(s) => JsonNumber::Decimal(s.clone()),
    }
}

fn text_field(entries: &Vec<(String, JsonValue)>, key: &str) -> (r: Option<Option<String>>)
    ensures
        r == text_slot(member(entries@, key@)),
{
    match find(entries, key) {
        None => Some(None),
        Some(i) => match &entries[i].1 {
            JsonValue::Null => Some(None),
            JsonValue::Str(s) => Some(Some(s.clone())),
            _ => None,
        },
    }
}

fn flag_field(entries: &Vec<(String, JsonValue)>, key: &str) -> (r: Option<Option<bool>>)
    ensures
        r == flag_slot(member(entries@, key@)),
{
    match find(entries, key) {
        None => Some(None),
        Some(i) => match &entries[i].1 {
            JsonValue::Null => Some(None),
            JsonValue::Bool(b) => Some(Some(*b)),
            _ => None,
        },
    }
}

fn score_field(entries: &Vec<(String, JsonValue)>, key: &str) -> (r: Option<Option<u8>>)
    ensures
        r == score_slot(member(entries@, key@)),
{
    match find(entries, key) {
        None => Some(None),
        Some(i) => match &entries[i].1 {
            JsonValue::Null => Some(None),
            JsonValue::Number(JsonNumber::Unsigned(n)) => if *n <= 255 {
                Some(Some(*n as u8))
            } else {
                None
            },
            _ => None,
        },
    }
}

fn number_field(entries: &Vec<(String, JsonValue)>, key: &str) -> (r: Option<Option<JsonNumber>>)
    ensures
        r == number_slot(member(entries@, key@)),
{
    match find(entries, key) {
        None => Some(None),
        Some(i) => match &entries[i].1 {
            JsonValue::Null => Some(None),
            JsonValue::Number(n) => Some(Some(copy_number(n))),
            _ => None,
        },
    }
}

/// Reads the ISP record an object describes.
pub fn decode_isp(v: &JsonValue) -> (r: Option<ISPInfo>)
    ensures
        r == isp_info_of(*v),
{
    match v {
        JsonValue::Object(entries) => match (
            text_field(entries, "asn"),
            text_field(entries, "org"),
            text_field(entries, "isp"),
        ) {
            (Some(asn), Some(org), Some(isp)) => Some(ISPInfo { asn, org, isp }),
            _ => None,
        },
        _ => None,
    }
}

/// Reads the location record an object describes.
pub fn decode_location(v: &JsonValue) -> (r: Option<LocationInfo>)
    ensures
        r == location_info_of(*v),
{
    match v {
        JsonValue::Object(entries) => match (
            text_field(entries, "country"),
            text_field(entries, "country_code"),
            text_field(entries, "city"),
            text_field(entries, "state"),
            text_field(entries, "zipcode"),
            number_field(entries, "latitude"),
            number_field(entries, "longitude"),
            text_field(entries, "timezone"),
            text_field(entries, "localtime"),
        ) {
            (
                Some(country),
                Some(country_code),
                Some(city),
                Some(state),
                Some(zipcode),
                Some(latitude),
                Some(longitude),
                Some(timezone),
                Some(localtime),
            ) => Some(
                LocationInfo {
                    country,
                    country_code,
                    city,
                    state,
                    zipcode,
                    latitude,
                    longitude,
                    timezone,
                    localtime,
                },
            ),
            _ => None,
        },
        _ => None,
    }
}

/// Reads the risk record an object describes.
pub fn decode_risk(v: &JsonValue) -> (r: Option<RiskInfo>)
    ensures
        r == risk_info_of(*v),
{
    match v {
        JsonValue::Object(entries) => match (
            flag_field(entries, "is_mobile"),
            flag_field(entries, "is_vpn"),
            flag_field(entries, "is_tor"),
            flag_field(entries, "is_proxy"),
            flag_field(entries, "is_datacenter"),
            score_field(entries, "risk_score"),
        ) {
            (
                Some(is_mobile),
                Some(is_vpn),
                Some(is_tor),
                Some(is_proxy),
                Some(is_datacenter),
                Some(risk_score),
            ) => Some(RiskInfo { is_mobile, is_vpn, is_tor, is_proxy, is_datacenter, risk_score }),
            _ => None,
        },
        _ => None,
    }
}

fn isp_field(entries: &Vec<(String, JsonValue)>, key: &str) -> (r: Option<Option<ISPInfo>>)
    ensures
        r == isp_slot(member(entries@, key@)),
{
    match find(entries, key) {
        None => Some(None),
        Some(i) => match &entries[i].1 {
            JsonValue::Null => Some(None),
            nested => match decode_isp(nested) {
                Some(r) => Some(Some(r)),
                None => None,
            },
        },
    }
}

fn location_field(entries: &Vec<(String, JsonValue)>, key: &str) -> (r: Option<
    Option<LocationInfo>,
>)
    ensures
        r == location_slot(member(entries@, key@)),
{
    match find(entries, key) {
        None => Some(None),
        Some(i) => match &entries[i].1 {
            JsonValue::Null => Some(None),
            nested => match decode_location(nested) {
                Some(r) => Some(Some(r)),
                None => None,
            },
        },
    }
}

fn risk_field(entries: &Vec<(String, JsonValue)>, key: &str) -> (r: Option<Option<RiskInfo>>)
    ensures
        r == risk_slot(member(entries@, key@)),
{
    match find(entries, key) {
        None => Some(None),
        Some(i) => match &entries[i].1 {
            JsonValue::Null => Some(None),
            nested => match decode_risk(nested) {
                Some(r) => Some(Some(r)),
                None => None,
            },
        },
    }
}

/// Reads the record of one address an object describes: `ip` must be a
/// string; `isp`, `location` and `risk` may be absent or null.
pub fn decode_ip_info(v: &JsonValue) -> (r: Option<IPInfo>)
    ensures
        r == ip_info_of(*v),
{
    match v {
        JsonValue::Object(entries) => {
            let ip = match find(entries, "ip") {
                Some(i) => match &entries[i].1 {
                    JsonValue::Str(s) => Some(s.clone()),
                    _ => None,
                },
                None => None,
            };
            match (
                ip,
                isp_field(entries, "isp"),
                location_field(entries, "location"),
                risk_field(entries, "risk"),
            ) {
                (Some(ip), Some(isp), Some(location), Some(risk)) => Some(
                    IPInfo { ip, isp, location, risk },
                ),
                _ => None,
            }
        },
        _ => None,
    }
}

/// Reads the records an array describes, one per element and in the same
/// order; fails as a whole where one element does not fit.
pub fn decode_ip_infos(v: &JsonValue) -> (r: Option<Vec<IPInfo>>)
    ensures
        match r {
            Some(out) => ip_infos_of(*v) == Some(out@),
            None => ip_infos_of(*v) is None,
        },
{
    match v {
        JsonValue::Array(items) => {
            let mut out: Vec<IPInfo> = Vec::new();
            let mut i: usize = 0;
            while i < items.len()
                invariant
                    *v == JsonValue::Array(*items),
                    i <= items@.len(),
                    forall|j: int| 0 <= j < i ==> (#[trigger] ip_info_of(items@[j])) is Some,
                    out@ =~= Seq::new(i as nat, |j: int| ip_info_of(items@[j])->0),
                decreases items@.len() - i,
            {
                match decode_ip_info(&items[i]) {
                    Some(info) => {
                        out.push(info);
                    },
                    None => {
                        assert(ip_info_of(items@[i as int]) is None);
                        assert(!(forall|j: int|
                            0 <= j < items@.len() ==> (#[trigger] ip_info_of(items@[j])) is Some));
                        assert(ip_infos_of(*v) is None);
                        return None;
                    },
                }
                i = i + 1;
            }
            Some(out)
        },
        _ => None,
    }
}

} // verus!
