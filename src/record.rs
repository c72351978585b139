use vstd::prelude::*;

use crate::json::JsonNumber;

verus! {

/// The network operator behind an address. Each field is absent where the
/// service leaves it out.
#[derive(Debug, Clone, PartialEq, Eq)]
pub struct ISPInfo {
    /// The Autonomous System Number.
    pub asn: Option<String>,
    /// The organization that holds the allocation.
    pub org: Option<String>,
    /// The name of the ISP.
    pub isp: Option<String>,
}

/// Where an address is located. Each field is absent where the service leaves it out.
#[derive(Debug, Clone, PartialEq, Eq)]
pub struct LocationInfo {
    /// The country name.
    pub country: Option<String>,
    /// The ISO country code.
    pub country_code: Option<String>,
    /// The city name.
    pub city: Option<String>,
    /// The state or region.
    pub state: Option<String>,
    /// The postal or ZIP code.
    pub zipcode: Option<String>,
    /// The latitude in degrees, as the number the service sent.
    pub latitude: Option<JsonNumber>,
    /// The longitude in degrees, as the number the service sent.
    pub longitude: Option<JsonNumber>,
    /// The time zone.
    pub timezone: Option<String>,
    /// The local time in that time zone.
    pub localtime: Option<String>,
}

/// What the service reports of an address's risk. Each field is absent where
/// the service leaves it out.
#[derive(Debug, Clone, PartialEq, Eq)]
pub struct RiskInfo {
    /// Whether the address belongs to a mobile network.
    pub is_mobile: Option<bool>,
    /// Whether the address is a VPN exit.
    pub is_vpn: Option<bool>,
    /// Whether the address is part of the Tor network.
    pub is_tor: Option<bool>,
    /// Whether the address is a proxy.
    pub is_proxy: Option<bool>,
    /// Whether the address belongs to a data center.
    pub is_datacenter: Option<bool>,
    /// The risk score, from 0 to 100.
    pub risk_score: Option<u8>,
}

/// Everything the service returns for one address.
#[derive(Debug, Clone, PartialEq, Eq)]
pub struct IPInfo {
    /// The address, as the service echoes it.
    pub ip: String,
    /// The network operator.
    pub isp: Option<ISPInfo>,
    /// The location.
    pub location: Option<LocationInfo>,
    /// The risk assessment.
    pub risk: Option<RiskInfo>,
}

} // verus!
