//! A client library for the ipquery.io IP lookup service: it builds the
//! request URLs for a lookup of one address, of several addresses at once, or
//! of the caller's own address, and turns what a request brought back into
//! typed records or an error.

pub mod decode;
pub mod json;
pub mod lookup;
pub mod record;
pub mod request;

pub use decode::{decode_ip_info, decode_ip_infos, decode_isp, decode_location, decode_risk};
pub use json::{JsonNumber, JsonValue};
pub use lookup::{
    bulk_lookup_result, ip_info_from_body, ip_infos_from_body, own_ip_result,
    single_lookup_result, LookupError, Reply,
};
pub use record::{IPInfo, ISPInfo, LocationInfo, RiskInfo};
pub use request::{bulk_url, join_ips, own_ip_url, single_url, BASE_URL};
