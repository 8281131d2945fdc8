//! Addresses of the provider operations that a run consumes.
//!
//! Identifiers and names are placed into the address as they are given;
//! nothing is escaped.

use vstd::prelude::*;
use vstd::string::*;

verus! {

/// Address of the zone directory, asked for the zones named `parent`.
pub open spec fn zone_lookup_address(parent: Seq<char>) -> Seq<char> {
    "https://api.cloudflare.com/client/v4/zones?name="@ + parent
}

/// Address that lists the address records called `name` in the zone
/// `zone_id`.
pub open spec fn record_lookup_address(zone_id: Seq<char>, name: Seq<char>) -> Seq<char> {
    "https://api.cloudflare.com/client/v4/zones/"@ + zone_id + "/dns_records?type=A&name="@ + name
}

/// Address of the record `record_id` in the zone `zone_id`, to which an
/// update is written.
pub open spec fn record_update_address(zone_id: Seq<char>, record_id: Seq<char>) -> Seq<char> {
    "https://api.cloudflare.com/client/v4/zones/"@ + zone_id + "/dns_records/"@ + record_id
}

/// Builds the address of the zone directory for the parent domain `parent`.
pub fn zone_lookup_url(parent: &str) -> (url: String)
    ensures
        url@ == zone_lookup_address(parent@),
{
    let mut url = String::from_str("https://api.cloudflare.com/client/v4/zones?name=");
    url.append(parent);
    url
}

/// Builds the address that lists the address records of `name` in the zone
/// `zone_id`.
pub fn record_lookup_url(zone_id: &str, name: &str) -> (url: String)
    ensures
        url@ == record_lookup_address(zone_id@, name@),
{
    let mut url = String::from_str("https://api.cloudflare.com/client/v4/zones/");
    url.append(zone_id);
    url.append("/dns_records?type=A&name=");
    url.append(name);
    url
}

/// Builds the address of the record `record_id` in the zone `zone_id`.
pub fn record_update_url(zone_id: &str, record_id: &str) -> (url: String)
    ensures
        url@ == record_update_address(zone_id@, record_id@),
{
    let mut url = String::from_str("https://api.cloudflare.com/client/v4/zones/");
    url.append(zone_id);
    url.append("/dns_records/");
    url.append(record_id);
    url
}

} // verus!
